//! Common abstractions for the Probe View.

use vstd::prelude::*;

verus! {

/// A datatype that can be read from the target's memory.
#[derive(Debug, Clone, Copy, PartialEq, Eq, Structural)]
pub enum Datatype {
    Int8,
    UInt8,
    Int16,
    UInt16,
    Int32,
    UInt32,
    Int64,
    UInt64,
    Float16,
    Float32,
    BFloat16,
    Char,
}

/// The short name under which a datatype is displayed.
pub open spec fn datatype_name(d: Datatype) -> Seq<char> {
    match d {
        Datatype::Int8 => "i8"@,
        Datatype::UInt8 => "u8"@,
        Datatype::Int16 => "i16"@,
        Datatype::UInt16 => "u16"@,
        Datatype::Int32 => "i32"@,
        Datatype::UInt32 => "u32"@,
        Datatype::Int64 => "i64"@,
        Datatype::UInt64 => "u64"@,
        Datatype::Float16 => "f16"@,
        Datatype::Float32 => "f32"@,
        Datatype::BFloat16 => "bf16"@,
        Datatype::Char => "char"@,
    }
}

impl Datatype {
    /// Returns the displayed name of the datatype.
    pub fn to_string(&self) -> (s: String)
        ensures
            s@ == datatype_name(*self),
    {
        let name: &str = match *self {
            Datatype::Int8 => "i8",
            Datatype::UInt8 => "u8",
            Datatype::Int16 => "i16",
            Datatype::UInt16 => "u16",
            Datatype::Int32 => "i32",
            Datatype::UInt32 => "u32",
            Datatype::Int64 => "i64",
            Datatype::UInt64 => "u64",
            Datatype::Float16 => "f16",
            Datatype::Float32 => "f32",
            Datatype::BFloat16 => "bf16",
            Datatype::Char => "char",
        };
        name.to_owned()
    }
}

} // verus!
