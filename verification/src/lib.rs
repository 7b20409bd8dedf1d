//! A numeric type bridge: a dispatch layer that moves arrays of scalar
//! numbers between a canonical set of numeric kinds and the element
//! representations of external columnar systems (an in-memory columnar
//! format and a columnar file format), preserving either the numeric
//! value or the exact bit pattern as each kind's policy demands.

pub mod arrowable;
pub mod bits;
pub mod bytes;
pub mod convert;
pub mod descriptor;
pub mod half_bits;
pub mod kind;
pub mod num_vec;
pub mod number;
pub mod parquetable;
pub mod qcompress;
