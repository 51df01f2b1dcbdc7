pub mod is_zero;
pub mod xor;
pub mod xor_table;
