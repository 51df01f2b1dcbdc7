//! Verified constraint-definition and witness-assignment logic for two
//! reusable gadgets of a PLONKish constraint system over the Pallas base
//! field: an is-zero indicator gadget, and a bitwise-XOR gadget backed by a
//! precomputed lookup table.
//!
//! The arithmetization backend — column storage, selector activation, gate
//! and lookup registration, region-scoped assignment, the proving algorithm
//! — is external; `backend` models the configuration-time requests the
//! gadgets make of it. What the gadgets themselves own is proved here: the
//! gate polynomials and the lookup table pin the result cells to exactly the
//! intended values (soundness), and the witnesses the protocol functions
//! compute always satisfy them (completeness).

pub mod backend;
pub mod chips;
pub mod field;
