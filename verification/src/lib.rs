//! Reed-Solomon error correction over GF(256) for QR codes: discrete-log
//! arithmetic on the field, construction of the generator polynomial, and
//! the polynomial long division that yields the correction codewords, with a
//! bit-packing layer that turns a payload into the message codewords the
//! division consumes.

pub mod gf256;
mod gf_tables;
pub mod qrcode;
pub mod solomon_reed;
pub mod tables;
