//! The number of bytes an object of a Rust type takes when read.
use vstd::prelude::*;

verus! {

/// The size in bytes of a value of a type as read from an object.
pub trait ReadSize {
    /// The read size in bytes
    const READ_SIZE: usize;
}

impl ReadSize for bool {
    const READ_SIZE: usize = 1;
}

impl ReadSize for u8 {
    const READ_SIZE: usize = 1;
}

impl ReadSize for u16 {
    const READ_SIZE: usize = 2;
}

impl ReadSize for u32 {
    const READ_SIZE: usize = 4;
}

impl ReadSize for u64 {
    const READ_SIZE: usize = 8;
}

impl ReadSize for i8 {
    const READ_SIZE: usize = 1;
}

impl ReadSize for i16 {
    const READ_SIZE: usize = 2;
}

impl ReadSize for i32 {
    const READ_SIZE: usize = 4;
}

impl ReadSize for i64 {
    const READ_SIZE: usize = 8;
}

} // verus!
