pub mod bcd;
pub mod bits;
pub mod interface;
