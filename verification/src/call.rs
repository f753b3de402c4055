//! The call planner and the result decoder.
//!
//! A call request names its target either by an open handle id plus a
//! symbol name, or by a raw address; an explicit address always overrides
//! name lookup, since addresses are how results of prior calls (such as
//! callback pointers) are re-invoked. Planning validates the target,
//! requires a declared return-buffer length whenever the return tag is a
//! byte buffer, and marshals every parameter — all before any native code
//! runs. Decoding turns the raw value the native call produced back into
//! the dynamic value model under the declared return tag.
//!
//! The host glue in between resolves the symbol, performs the native call
//! through the C calling convention, and copies returned buffers; what it
//! hands back is decoded here for every possible outcome.

use crate::dec::{dec_digits, dec_digits_signed};
use crate::marshal::{
    args_view, marshal_params, marshal_params_spec, NativeArg, NativeArgV, Param, ParamV,
    params_view,
};
use crate::registry::Registry;
use crate::utf8::is_valid_utf8;
use crate::value::{BridgeError, TypeTag, WireValue, WireValueV};
use vstd::prelude::*;
use vstd::slice::slice_to_vec;
use vstd::utf8::valid_utf8;

verus! {

/// Where a call goes: a resolved symbol of an open library, or a raw
/// address supplied by the caller. A raw address is trusted verbatim;
/// calling an invalid one is native undefined behavior that no layer here
/// can catch.
#[derive(Clone, Debug, PartialEq)]
pub enum Target {
    Address(u64),
    Symbol { handle_id: u64, name: Vec<u8> },
}

/// The mathematical shape of a `Target`.
pub enum TargetV {
    Address(u64),
    Symbol(u64, Seq<u8>),
}

impl View for Target {
    type V = TargetV;

    open spec fn view(&self) -> TargetV {
        match self {
            Target::Address(a) => TargetV::Address(*a),
            Target::Symbol { handle_id, name } => TargetV::Symbol(*handle_id, name@),
        }
    }
}

/// One call request, constructed per call and discarded afterwards.
#[derive(Clone, Debug)]
pub struct CallRequest {
    /// The library to resolve `symbol` in; unneeded when `address` is
    /// given.
    pub handle_id: Option<u64>,
    /// The symbol name, as UTF-8 bytes.
    pub symbol: Option<Vec<u8>>,
    /// A raw code address; takes precedence over name lookup.
    pub address: Option<u64>,
    /// The tagged parameters, in call order.
    pub params: Vec<Param>,
    /// The declared return type.
    pub return_tag: TypeTag,
    /// How many bytes to read back when the return tag is a byte buffer.
    pub return_len: Option<usize>,
}

/// The mathematical shape of a `CallRequest`.
pub struct CallRequestV {
    pub handle_id: Option<u64>,
    pub symbol: Option<Seq<u8>>,
    pub address: Option<u64>,
    pub params: Seq<ParamV>,
    pub return_tag: TypeTag,
    pub return_len: Option<usize>,
}

impl View for CallRequest {
    type V = CallRequestV;

    open spec fn view(&self) -> CallRequestV {
        CallRequestV {
            handle_id: self.handle_id,
            symbol: match self.symbol {
                Some(ref s) => Some(s@),
                None => None,
            },
            address: self.address,
            params: params_view(self.params@),
            return_tag: self.return_tag,
            return_len: self.return_len,
        }
    }
}

/// Everything the host glue needs to perform one native call: the
/// resolved target, the marshalled arguments (owning their scratch
/// buffers), and how to decode the result.
#[derive(Debug)]
pub struct CallPlan {
    pub target: Target,
    pub args: Vec<NativeArg>,
    pub return_tag: TypeTag,
    pub return_len: Option<usize>,
}

/// The mathematical shape of a `CallPlan`.
pub struct CallPlanV {
    pub target: TargetV,
    pub args: Seq<NativeArgV>,
    pub return_tag: TypeTag,
    pub return_len: Option<usize>,
}

impl View for CallPlan {
    type V = CallPlanV;

    open spec fn view(&self) -> CallPlanV {
        CallPlanV {
            target: self.target@,
            args: args_view(self.args@),
            return_tag: self.return_tag,
            return_len: self.return_len,
        }
    }
}

/// How a request's target resolves against the set of open handle ids:
/// an explicit address wins; otherwise the handle must be open and a
/// symbol name present. A request that could never name a callable — no
/// address and no handle id, or no symbol — is missing a required field.
pub open spec fn target_spec(open_ids: Set<u64>, req: CallRequestV) -> Result<
    TargetV,
    BridgeError,
> {
    match req.address {
        Some(a) => Ok(TargetV::Address(a)),
        None => match req.handle_id {
            None => Err(BridgeError::Marshal),
            Some(h) => if !open_ids.contains(h) {
                Err(BridgeError::InvalidHandle)
            } else {
                match req.symbol {
                    Some(nm) => Ok(TargetV::Symbol(h, nm)),
                    None => Err(BridgeError::Marshal),
                }
            },
        },
    }
}

/// What planning a call yields: the plan, or the first error — an
/// unusable target, a byte-buffer return tag without a declared length,
/// or a parameter that fails to marshal.
pub open spec fn plan_spec(open_ids: Set<u64>, req: CallRequestV) -> Result<
    CallPlanV,
    BridgeError,
> {
    match target_spec(open_ids, req) {
        Err(e) => Err(e),
        Ok(t) => if req.return_tag == TypeTag::Ptr && req.return_len is None {
            Err(BridgeError::Marshal)
        } else {
            match marshal_params_spec(req.params) {
                Err(e) => Err(e),
                Ok(args) => Ok(
                    CallPlanV {
                        target: t,
                        args,
                        return_tag: req.return_tag,
                        return_len: req.return_len,
                    },
                ),
            }
        },
    }
}

/// Validates a call request against the registry and marshals its
/// parameters. Every failure is reported here, before any native call.
pub fn plan_call(reg: &Registry, req: &CallRequest) -> (r: Result<CallPlan, BridgeError>)
    ensures
        match r {
            Ok(p) => plan_spec(reg@, req@) == Ok::<CallPlanV, BridgeError>(p@),
            Err(e) => plan_spec(reg@, req@) == Err::<CallPlanV, BridgeError>(e),
        },
{
    let target: Target = match req.address {
        Some(a) => Target::Address(a),
        None => match req.handle_id {
            None => {
                return Err(BridgeError::Marshal);
            },
            Some(h) => {
                if !reg.is_open(h) {
                    return Err(BridgeError::InvalidHandle);
                }
                match &req.symbol {
                    Some(nm) => Target::Symbol { handle_id: h, name: slice_to_vec(nm.as_slice()) },
                    None => {
                        return Err(BridgeError::Marshal);
                    },
                }
            },
        },
    };
    if matches!(req.return_tag, TypeTag::Ptr) && req.return_len.is_none() {
        return Err(BridgeError::Marshal);
    }
    match marshal_params(&req.params) {
        Err(e) => Err(e),
        Ok(args) => Ok(
            CallPlan { target, args, return_tag: req.return_tag, return_len: req.return_len },
        ),
    }
}

/// The raw outcome of a native call, as the host glue hands it back: the
/// returned machine value, already widened to the declared tag's carrier.
/// For a string return it is the bytes up to the terminator (or nothing
/// for a null pointer); for a byte-buffer return, the bytes read back.
#[derive(Clone, Debug, PartialEq)]
pub enum RawRet {
    Unit,
    U8(u8),
    I8(i8),
    U16(u16),
    I16(i16),
    U32(u32),
    I32(i32),
    U64(u64),
    I64(i64),
    F32Bits(u32),
    F64Bits(u64),
    Bytes(Vec<u8>),
    Address(u64),
    CStringBytes(Option<Vec<u8>>),
}

/// The mathematical shape of a `RawRet`.
pub enum RawRetV {
    Unit,
    U8(u8),
    I8(i8),
    U16(u16),
    I16(i16),
    U32(u32),
    I32(i32),
    U64(u64),
    I64(i64),
    F32Bits(u32),
    F64Bits(u64),
    Bytes(Seq<u8>),
    Address(u64),
    CStringBytes(Option<Seq<u8>>),
}

impl View for RawRet {
    type V = RawRetV;

    open spec fn view(&self) -> RawRetV {
        match self {
            RawRet::Unit => RawRetV::Unit,
            RawRet::U8(n) => RawRetV::U8(*n),
            RawRet::I8(n) => RawRetV::I8(*n),
            RawRet::U16(n) => RawRetV::U16(*n),
            RawRet::I16(n) => RawRetV::I16(*n),
            RawRet::U32(n) => RawRetV::U32(*n),
            RawRet::I32(n) => RawRetV::I32(*n),
            RawRet::U64(n) => RawRetV::U64(*n),
            RawRet::I64(n) => RawRetV::I64(*n),
            RawRet::F32Bits(b) => RawRetV::F32Bits(*b),
            RawRet::F64Bits(b) => RawRetV::F64Bits(*b),
            RawRet::Bytes(v) => RawRetV::Bytes(v@),
            RawRet::Address(a) => RawRetV::Address(*a),
            RawRet::CStringBytes(o) => match o {
                Some(v) => RawRetV::CStringBytes(Some(v@)),
                None => RawRetV::CStringBytes(None),
            },
        }
    }
}

/// What decoding a raw result under a return tag yields. Numbers up to 32
/// bits return as numbers; 64-bit integers and raw addresses return as
/// decimal text; a returned string must be non-null and valid UTF-8, else
/// it is a `Decode` error. A raw value whose shape does not match the
/// declared tag is a `Decode` error as well.
pub open spec fn decode_spec(tag: TypeTag, raw: RawRetV) -> Result<WireValueV, BridgeError> {
    match tag {
        TypeTag::Void => match raw {
            RawRetV::Unit => Ok(WireValueV::Null),
            _ => Err(BridgeError::Decode),
        },
        TypeTag::U8 => match raw {
            RawRetV::U8(n) => Ok(WireValueV::UInt(n as u64)),
            _ => Err(BridgeError::Decode),
        },
        TypeTag::U16 => match raw {
            RawRetV::U16(n) => Ok(WireValueV::UInt(n as u64)),
            _ => Err(BridgeError::Decode),
        },
        TypeTag::U32 => match raw {
            RawRetV::U32(n) => Ok(WireValueV::UInt(n as u64)),
            _ => Err(BridgeError::Decode),
        },
        TypeTag::I8 => match raw {
            RawRetV::I8(n) => Ok(WireValueV::Int(n as i64)),
            _ => Err(BridgeError::Decode),
        },
        TypeTag::I16 => match raw {
            RawRetV::I16(n) => Ok(WireValueV::Int(n as i64)),
            _ => Err(BridgeError::Decode),
        },
        TypeTag::I32 => match raw {
            RawRetV::I32(n) => Ok(WireValueV::Int(n as i64)),
            _ => Err(BridgeError::Decode),
        },
        TypeTag::U64 => match raw {
            RawRetV::U64(n) => Ok(WireValueV::Text(dec_digits(n as nat))),
            _ => Err(BridgeError::Decode),
        },
        TypeTag::I64 => match raw {
            RawRetV::I64(n) => Ok(WireValueV::Text(dec_digits_signed(n as int))),
            _ => Err(BridgeError::Decode),
        },
        TypeTag::F32 => match raw {
            RawRetV::F32Bits(b) => Ok(WireValueV::F32Bits(b)),
            _ => Err(BridgeError::Decode),
        },
        TypeTag::F64 => match raw {
            RawRetV::F64Bits(b) => Ok(WireValueV::F64Bits(b)),
            _ => Err(BridgeError::Decode),
        },
        TypeTag::Ptr => match raw {
            RawRetV::Bytes(b) => Ok(WireValueV::Bytes(b)),
            _ => Err(BridgeError::Decode),
        },
        TypeTag::RawPtr => match raw {
            RawRetV::Address(a) => Ok(WireValueV::Text(dec_digits(a as nat))),
            _ => Err(BridgeError::Decode),
        },
        TypeTag::Str => match raw {
            RawRetV::CStringBytes(Some(b)) => if valid_utf8(b) {
                Ok(WireValueV::Text(b))
            } else {
                Err(BridgeError::Decode)
            },
            _ => Err(BridgeError::Decode),
        },
    }
}

/// Law: a call that names a handle outside the open set — unopened, or
/// opened and since closed — is answered with `InvalidHandle`, before any
/// native code runs.
pub proof fn lemma_closed_handle_rejected(open_ids: Set<u64>, req: CallRequestV)
    requires
        req.address is None,
        req.handle_id is Some,
        !open_ids.contains(req.handle_id->0),
    ensures
        plan_spec(open_ids, req) == Err::<CallPlanV, BridgeError>(BridgeError::InvalidHandle),
{
}

/// Law: a call whose return tag is a byte buffer but which declares no
/// return length is a `Marshal` error, before any native code runs.
pub proof fn lemma_missing_return_len_rejected(open_ids: Set<u64>, req: CallRequestV)
    requires
        req.return_tag == TypeTag::Ptr,
        req.return_len is None,
    ensures
        plan_spec(open_ids, req) is Err,
        target_spec(open_ids, req) is Ok ==> plan_spec(open_ids, req) == Err::<
            CallPlanV,
            BridgeError,
        >(BridgeError::Marshal),
{
}

/// Law: a 64-bit unsigned return value decodes to decimal text that
/// parses back to the same value — the text transport loses no precision
/// up to `u64::MAX`.
pub proof fn lemma_u64_return_round_trip(n: u64)
    ensures
        decode_spec(TypeTag::U64, RawRetV::U64(n)) == Ok::<WireValueV, BridgeError>(
            WireValueV::Text(dec_digits(n as nat)),
        ),
        crate::dec::parse_u64_spec(dec_digits(n as nat)) == Some(n),
{
    crate::dec::lemma_u64_text_round_trip(n);
}

/// Law: a 64-bit signed return value decodes to decimal text that parses
/// back to the same value, over the full signed 64-bit range.
pub proof fn lemma_i64_return_round_trip(n: i64)
    ensures
        decode_spec(TypeTag::I64, RawRetV::I64(n)) == Ok::<WireValueV, BridgeError>(
            WireValueV::Text(dec_digits_signed(n as int)),
        ),
        crate::dec::parse_i64_spec(dec_digits_signed(n as int)) == Some(n),
{
    crate::dec::lemma_i64_text_round_trip(n);
}

/// Decodes the raw result of a native call under the declared return tag.
pub fn decode_result(tag: TypeTag, raw: RawRet) -> (r: Result<WireValue, BridgeError>)
    ensures
        match r {
            Ok(v) => decode_spec(tag, raw@) == Ok::<WireValueV, BridgeError>(v@),
            Err(e) => decode_spec(tag, raw@) == Err::<WireValueV, BridgeError>(e),
        },
{
    match tag {
        TypeTag::Void => match raw {
            RawRet::Unit => Ok(WireValue::Null),
            _ => Err(BridgeError::Decode),
        },
        TypeTag::U8 => match raw {
            RawRet::U8(n) => Ok(WireValue::UInt(n as u64)),
            _ => Err(BridgeError::Decode),
        },
        TypeTag::U16 => match raw {
            RawRet::U16(n) => Ok(WireValue::UInt(n as u64)),
            _ => Err(BridgeError::Decode),
        },
        TypeTag::U32 => match raw {
            RawRet::U32(n) => Ok(WireValue::UInt(n as u64)),
            _ => Err(BridgeError::Decode),
        },
        TypeTag::I8 => match raw {
            RawRet::I8(n) => Ok(WireValue::Int(n as i64)),
            _ => Err(BridgeError::Decode),
        },
        TypeTag::I16 => match raw {
            RawRet::I16(n) => Ok(WireValue::Int(n as i64)),
            _ => Err(BridgeError::Decode),
        },
        TypeTag::I32 => match raw {
            RawRet::I32(n) => Ok(WireValue::Int(n as i64)),
            _ => Err(BridgeError::Decode),
        },
        TypeTag::U64 => match raw {
            RawRet::U64(n) => Ok(WireValue::Text(crate::dec::format_u64(n))),
            _ => Err(BridgeError::Decode),
        },
        TypeTag::I64 => match raw {
            RawRet::I64(n) => Ok(WireValue::Text(crate::dec::format_i64(n))),
            _ => Err(BridgeError::Decode),
        },
        TypeTag::F32 => match raw {
            RawRet::F32Bits(b) => Ok(WireValue::F32Bits(b)),
            _ => Err(BridgeError::Decode),
        },
        TypeTag::F64 => match raw {
            RawRet::F64Bits(b) => Ok(WireValue::F64Bits(b)),
            _ => Err(BridgeError::Decode),
        },
        TypeTag::Ptr => match raw {
            RawRet::Bytes(b) => Ok(WireValue::Bytes(b)),
            _ => Err(BridgeError::Decode),
        },
        TypeTag::RawPtr => match raw {
            RawRet::Address(a) => Ok(WireValue::Text(crate::dec::format_u64(a))),
            _ => Err(BridgeError::Decode),
        },
        TypeTag::Str => match raw {
            RawRet::CStringBytes(Some(b)) => {
                if is_valid_utf8(b.as_slice()) {
                    Ok(WireValue::Text(b))
                } else {
                    Err(BridgeError::Decode)
                }
            },
            _ => Err(BridgeError::Decode),
        },
    }
}

} // verus!
