//! The dynamic value model exchanged with the external caller, the type
//! tags that describe native widths, and the bridge's error taxonomy.
//!
//! Text is carried as its UTF-8 bytes throughout the library: the host
//! glue converts between `String` and byte vectors at the boundary, so
//! that every rule about text (decimal encodings, validity of decoded
//! strings) is stated over byte sequences.

use vstd::prelude::*;

verus! {

/// The type tags a request may declare for a parameter or a return value.
#[derive(Clone, Copy, Debug, PartialEq, Eq, Structural)]
pub enum TypeTag {
    Void,
    U8,
    I8,
    U16,
    I16,
    U32,
    I32,
    U64,
    I64,
    F32,
    F64,
    /// Null-terminated UTF-8 text.
    Str,
    /// A byte buffer passed or returned by address.
    Ptr,
    /// An opaque pointer value, surfaced only as text, never dereferenced.
    RawPtr,
}

/// A dynamically tagged value, as the external caller supplies and
/// receives it.
///
/// 64-bit integers travel as decimal text in both directions, so they
/// appear here only as `Text`. Floating-point values are carried as their
/// IEEE-754 bit patterns: the bridge never computes with them, it only
/// moves them across the boundary.
#[derive(Clone, Debug, PartialEq)]
pub enum WireValue {
    Null,
    /// A number carried in an unsigned 64-bit slot; non-negative numbers
    /// of the dynamic representation arrive this way.
    UInt(u64),
    /// A number carried in a signed 64-bit slot; negative numbers arrive
    /// this way, and signed return values leave this way.
    Int(i64),
    /// The bit pattern of a 32-bit IEEE-754 value.
    F32Bits(u32),
    /// The bit pattern of a 64-bit IEEE-754 value.
    F64Bits(u64),
    /// UTF-8 text, as its bytes.
    Text(Vec<u8>),
    /// An ordered sequence of bytes.
    Bytes(Vec<u8>),
}

/// The mathematical shape of a `WireValue`: byte vectors become byte
/// sequences.
pub enum WireValueV {
    Null,
    UInt(u64),
    Int(i64),
    F32Bits(u32),
    F64Bits(u64),
    Text(Seq<u8>),
    Bytes(Seq<u8>),
}

impl View for WireValue {
    type V = WireValueV;

    open spec fn view(&self) -> WireValueV {
        match self {
            WireValue::Null => WireValueV::Null,
            WireValue::UInt(n) => WireValueV::UInt(*n),
            WireValue::Int(n) => WireValueV::Int(*n),
            WireValue::F32Bits(b) => WireValueV::F32Bits(*b),
            WireValue::F64Bits(b) => WireValueV::F64Bits(*b),
            WireValue::Text(t) => WireValueV::Text(t@),
            WireValue::Bytes(b) => WireValueV::Bytes(b@),
        }
    }
}

/// The errors the bridge reports to its caller. All of them are
/// recoverable at the request boundary; none terminates the process.
#[derive(Clone, Copy, Debug, PartialEq, Eq, Structural)]
pub enum BridgeError {
    /// The platform loader rejected the library path.
    LibraryLoad,
    /// The handle id is unknown or already closed.
    InvalidHandle,
    /// Name lookup in the native library failed.
    SymbolNotFound,
    /// A parameter's payload does not match its tag, or a required field
    /// such as the return length is missing.
    Marshal,
    /// A returned string was a null pointer or not valid UTF-8.
    Decode,
}

impl BridgeError {
    /// The error's name, as it appears in a structured error response.
    pub fn label(&self) -> (s: &'static str)
        ensures
            s@ == self.spec_label(),
    {
        match self {
            BridgeError::LibraryLoad => "LibraryLoadError",
            BridgeError::InvalidHandle => "InvalidHandle",
            BridgeError::SymbolNotFound => "SymbolNotFound",
            BridgeError::Marshal => "MarshalError",
            BridgeError::Decode => "DecodeError",
        }
    }

    /// What `label` returns for each variant.
    pub open spec fn spec_label(&self) -> Seq<char> {
        match self {
            BridgeError::LibraryLoad => "LibraryLoadError"@,
            BridgeError::InvalidHandle => "InvalidHandle"@,
            BridgeError::SymbolNotFound => "SymbolNotFound"@,
            BridgeError::Marshal => "MarshalError"@,
            BridgeError::Decode => "DecodeError"@,
        }
    }
}

} // verus!
