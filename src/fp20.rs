//! The prime field of order `p = 2^21 - 9`, in integer registers and in
//! floating registers of single and double precision.
pub mod double_precision;
pub mod integer;
pub mod single_precision;
