//! A 64-bit CityHash fingerprint over byte buffers, with every routine
//! proved equal to a mathematical model of the hash.
pub mod bytes;
pub mod city;
pub mod laws;
pub mod mix;

pub use bytes::read_uint64_le;
pub use city::city_hash_64;
pub use mix::hash_128_to_64;
