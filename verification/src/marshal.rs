//! The argument marshaller: converts each tagged dynamic value into the
//! native representation the call expects.
//!
//! Fixed-width numeric tags convert by value; an out-of-range value is
//! truncated to the declared width with two's-complement wrapping, which
//! mirrors the narrowing rule native code applies. 64-bit integers are
//! parsed from decimal text. Strings become null-terminated buffers owned
//! by the marshaller for the duration of the call, and byte buffers are
//! copied into scratch buffers passed by address. A payload that does not
//! match its tag is a `Marshal` error, reported before any native call is
//! attempted. The argument list handed to the call is exactly the declared
//! parameters, in order: nothing is reordered or appended.

use crate::dec::{parse_i64, parse_i64_spec, parse_u64, parse_u64_spec};
use crate::value::{BridgeError, TypeTag, WireValue, WireValueV};
use vstd::arithmetic::div_mod::{
    lemma_fundamental_div_mod, lemma_mod_multiples_vanish, lemma_small_mod,
};
use vstd::prelude::*;
use vstd::slice::slice_to_vec;

verus! {

/// One native call argument, after marshalling. Buffer-backed variants
/// own their bytes for the duration of the call.
#[derive(Clone, Debug, PartialEq)]
pub enum NativeArg {
    Void,
    U8(u8),
    I8(i8),
    U16(u16),
    I16(i16),
    U32(u32),
    I32(i32),
    U64(u64),
    I64(i64),
    F32Bits(u32),
    F64Bits(u64),
    /// A null-terminated string buffer; the callee receives its address.
    CString(Vec<u8>),
    /// A scratch byte buffer; the callee receives its address.
    Buffer(Vec<u8>),
}

/// The mathematical shape of a `NativeArg`.
pub enum NativeArgV {
    Void,
    U8(u8),
    I8(i8),
    U16(u16),
    I16(i16),
    U32(u32),
    I32(i32),
    U64(u64),
    I64(i64),
    F32Bits(u32),
    F64Bits(u64),
    CString(Seq<u8>),
    Buffer(Seq<u8>),
}

impl View for NativeArg {
    type V = NativeArgV;

    open spec fn view(&self) -> NativeArgV {
        match self {
            NativeArg::Void => NativeArgV::Void,
            NativeArg::U8(n) => NativeArgV::U8(*n),
            NativeArg::I8(n) => NativeArgV::I8(*n),
            NativeArg::U16(n) => NativeArgV::U16(*n),
            NativeArg::I16(n) => NativeArgV::I16(*n),
            NativeArg::U32(n) => NativeArgV::U32(*n),
            NativeArg::I32(n) => NativeArgV::I32(*n),
            NativeArg::U64(n) => NativeArgV::U64(*n),
            NativeArg::I64(n) => NativeArgV::I64(*n),
            NativeArg::F32Bits(b) => NativeArgV::F32Bits(*b),
            NativeArg::F64Bits(b) => NativeArgV::F64Bits(*b),
            NativeArg::CString(v) => NativeArgV::CString(v@),
            NativeArg::Buffer(v) => NativeArgV::Buffer(v@),
        }
    }
}

/// One tagged parameter of a call request.
#[derive(Clone, Debug, PartialEq)]
pub struct Param {
    pub tag: TypeTag,
    pub value: WireValue,
}

/// The mathematical shape of a `Param`.
pub struct ParamV {
    pub tag: TypeTag,
    pub value: WireValueV,
}

impl View for Param {
    type V = ParamV;

    open spec fn view(&self) -> ParamV {
        ParamV { tag: self.tag, value: self.value@ }
    }
}

/// The views of a sequence of parameters.
pub open spec fn params_view(ps: Seq<Param>) -> Seq<ParamV> {
    ps.map_values(|p: Param| p@)
}

/// The views of a sequence of native arguments.
pub open spec fn args_view(s: Seq<NativeArg>) -> Seq<NativeArgV> {
    s.map_values(|a: NativeArg| a@)
}

/// `n` reduced modulo `m`, into `[0, m)`: the value an unsigned native
/// type of modulus `m` holds after narrowing.
pub open spec fn wrap_unsigned(n: int, m: int) -> int {
    n % m
}

/// `n` wrapped into `[-m/2, m/2)`: the value a two's-complement native
/// type of modulus `m` holds after narrowing.
pub open spec fn wrap_signed(n: int, m: int) -> int {
    let r = n % m;
    if r >= m / 2 {
        r - m
    } else {
        r
    }
}

/// Some byte of `s` is zero.
pub open spec fn contains_nul(s: Seq<u8>) -> bool {
    exists|i: int| 0 <= i < s.len() && s[i] == 0
}

/// What marshalling one tagged value yields: the native argument, or the
/// error when the payload does not fit the tag. An unsigned tag requires
/// the unsigned carrier; a signed tag accepts either carrier while the
/// value fits the signed 64-bit range. A `void`-tagged parameter becomes
/// a unit argument, and so does a `rawptr` tag, which carries no
/// marshallable payload.
pub open spec fn marshal_spec(tag: TypeTag, v: WireValueV) -> Result<NativeArgV, BridgeError> {
    match tag {
        TypeTag::Void => Ok(NativeArgV::Void),
        TypeTag::RawPtr => Ok(NativeArgV::Void),
        TypeTag::U8 => match v {
            WireValueV::UInt(n) => Ok(NativeArgV::U8(wrap_unsigned(n as int, 0x100) as u8)),
            _ => Err(BridgeError::Marshal),
        },
        TypeTag::U16 => match v {
            WireValueV::UInt(n) => Ok(NativeArgV::U16(wrap_unsigned(n as int, 0x10000) as u16)),
            _ => Err(BridgeError::Marshal),
        },
        TypeTag::U32 => match v {
            WireValueV::UInt(n) => Ok(
                NativeArgV::U32(wrap_unsigned(n as int, 0x100000000) as u32),
            ),
            _ => Err(BridgeError::Marshal),
        },
        TypeTag::I8 => match v {
            WireValueV::Int(n) => Ok(NativeArgV::I8(wrap_signed(n as int, 0x100) as i8)),
            WireValueV::UInt(n) => if n <= i64::MAX as u64 {
                Ok(NativeArgV::I8(wrap_signed(n as int, 0x100) as i8))
            } else {
                Err(BridgeError::Marshal)
            },
            _ => Err(BridgeError::Marshal),
        },
        TypeTag::I16 => match v {
            WireValueV::Int(n) => Ok(NativeArgV::I16(wrap_signed(n as int, 0x10000) as i16)),
            WireValueV::UInt(n) => if n <= i64::MAX as u64 {
                Ok(NativeArgV::I16(wrap_signed(n as int, 0x10000) as i16))
            } else {
                Err(BridgeError::Marshal)
            },
            _ => Err(BridgeError::Marshal),
        },
        TypeTag::I32 => match v {
            WireValueV::Int(n) => Ok(NativeArgV::I32(wrap_signed(n as int, 0x100000000) as i32)),
            WireValueV::UInt(n) => if n <= i64::MAX as u64 {
                Ok(NativeArgV::I32(wrap_signed(n as int, 0x100000000) as i32))
            } else {
                Err(BridgeError::Marshal)
            },
            _ => Err(BridgeError::Marshal),
        },
        TypeTag::U64 => match v {
            WireValueV::Text(t) => match parse_u64_spec(t) {
                Some(n) => Ok(NativeArgV::U64(n)),
                None => Err(BridgeError::Marshal),
            },
            _ => Err(BridgeError::Marshal),
        },
        TypeTag::I64 => match v {
            WireValueV::Text(t) => match parse_i64_spec(t) {
                Some(n) => Ok(NativeArgV::I64(n)),
                None => Err(BridgeError::Marshal),
            },
            _ => Err(BridgeError::Marshal),
        },
        TypeTag::F32 => match v {
            WireValueV::F32Bits(b) => Ok(NativeArgV::F32Bits(b)),
            _ => Err(BridgeError::Marshal),
        },
        TypeTag::F64 => match v {
            WireValueV::F64Bits(b) => Ok(NativeArgV::F64Bits(b)),
            _ => Err(BridgeError::Marshal),
        },
        TypeTag::Str => match v {
            WireValueV::Text(t) => if contains_nul(t) {
                Err(BridgeError::Marshal)
            } else {
                Ok(NativeArgV::CString(t.push(0)))
            },
            _ => Err(BridgeError::Marshal),
        },
        TypeTag::Ptr => match v {
            WireValueV::Bytes(b) => Ok(NativeArgV::Buffer(b)),
            _ => Err(BridgeError::Marshal),
        },
    }
}

/// The remainder of `n` modulo `m`, in `[0, m)` also for negative `n`.
fn euclid_mod(n: i64, m: u64) -> (r: u64)
    requires
        2 <= m <= 0x100000000,
    ensures
        r as int == (n as int) % (m as int),
{
    if n >= 0 {
        (n as u64) % m
    } else {
        let k: u64 = (-(n + 1)) as u64;
        let rk: u64 = k % m;
        let r = (m - 1) - rk;
        proof {
            let mi = m as int;
            lemma_fundamental_div_mod(k as int, mi);
            let q = (k as int) / mi;
            assert(mi * (-q - 1) == -(mi * q) - mi) by (nonlinear_arith);
            assert(n as int == mi * (-q - 1) + (mi - 1 - rk));
            lemma_mod_multiples_vanish(-q - 1, mi - 1 - rk, mi);
            lemma_small_mod((m - 1 - rk) as nat, m as nat);
        }
        r
    }
}

/// Narrows to 8 unsigned bits by wrapping.
fn trunc_u8(n: u64) -> (r: u8)
    ensures
        r as int == wrap_unsigned(n as int, 0x100),
{
    (n % 0x100) as u8
}

/// Narrows to 16 unsigned bits by wrapping.
fn trunc_u16(n: u64) -> (r: u16)
    ensures
        r as int == wrap_unsigned(n as int, 0x10000),
{
    (n % 0x10000) as u16
}

/// Narrows to 32 unsigned bits by wrapping.
fn trunc_u32(n: u64) -> (r: u32)
    ensures
        r as int == wrap_unsigned(n as int, 0x100000000),
{
    (n % 0x100000000) as u32
}

/// Narrows to 8 signed bits with two's-complement wrapping.
fn trunc_i8(n: i64) -> (r: i8)
    ensures
        r as int == wrap_signed(n as int, 0x100),
{
    let m = euclid_mod(n, 0x100);
    if m >= 0x80 {
        ((m as i64) - 0x100) as i8
    } else {
        m as i8
    }
}

/// Narrows to 16 signed bits with two's-complement wrapping.
fn trunc_i16(n: i64) -> (r: i16)
    ensures
        r as int == wrap_signed(n as int, 0x10000),
{
    let m = euclid_mod(n, 0x10000);
    if m >= 0x8000 {
        ((m as i64) - 0x10000) as i16
    } else {
        m as i16
    }
}

/// Narrows to 32 signed bits with two's-complement wrapping.
fn trunc_i32(n: i64) -> (r: i32)
    ensures
        r as int == wrap_signed(n as int, 0x100000000),
{
    let m = euclid_mod(n, 0x100000000);
    if m >= 0x80000000 {
        ((m as i64) - 0x100000000) as i32
    } else {
        m as i32
    }
}

/// Copies `t` and appends the null terminator, refusing text with an
/// interior null byte.
fn make_c_string(t: &Vec<u8>) -> (r: Result<Vec<u8>, BridgeError>)
    ensures
        match r {
            Ok(c) => !contains_nul(t@) && c@ == t@.push(0u8),
            Err(e) => contains_nul(t@) && e == BridgeError::Marshal,
        },
{
    let n = t.len();
    let mut i: usize = 0;
    while i < n
        invariant
            i <= n == t@.len(),
            forall|j: int| 0 <= j < i ==> t@[j] != 0,
        decreases n - i,
    {
        if t[i] == 0 {
            return Err(BridgeError::Marshal);
        }
        i = i + 1;
    }
    let mut c = slice_to_vec(t.as_slice());
    c.push(0);
    proof {
        assert(c@ =~= t@.push(0u8));
    }
    Ok(c)
}

/// Marshals one tagged value into a native argument.
pub fn marshal_param(tag: TypeTag, v: &WireValue) -> (r: Result<NativeArg, BridgeError>)
    ensures
        match r {
            Ok(a) => marshal_spec(tag, v@) == Ok::<NativeArgV, BridgeError>(a@),
            Err(e) => marshal_spec(tag, v@) == Err::<NativeArgV, BridgeError>(e),
        },
{
    match tag {
        TypeTag::Void => Ok(NativeArg::Void),
        TypeTag::RawPtr => Ok(NativeArg::Void),
        TypeTag::U8 => match v {
            WireValue::UInt(n) => Ok(NativeArg::U8(trunc_u8(*n))),
            _ => Err(BridgeError::Marshal),
        },
        TypeTag::U16 => match v {
            WireValue::UInt(n) => Ok(NativeArg::U16(trunc_u16(*n))),
            _ => Err(BridgeError::Marshal),
        },
        TypeTag::U32 => match v {
            WireValue::UInt(n) => Ok(NativeArg::U32(trunc_u32(*n))),
            _ => Err(BridgeError::Marshal),
        },
        TypeTag::I8 => match v {
            WireValue::Int(n) => Ok(NativeArg::I8(trunc_i8(*n))),
            WireValue::UInt(n) => if *n <= i64::MAX as u64 {
                Ok(NativeArg::I8(trunc_i8(*n as i64)))
            } else {
                Err(BridgeError::Marshal)
            },
            _ => Err(BridgeError::Marshal),
        },
        TypeTag::I16 => match v {
            WireValue::Int(n) => Ok(NativeArg::I16(trunc_i16(*n))),
            WireValue::UInt(n) => if *n <= i64::MAX as u64 {
                Ok(NativeArg::I16(trunc_i16(*n as i64)))
            } else {
                Err(BridgeError::Marshal)
            },
            _ => Err(BridgeError::Marshal),
        },
        TypeTag::I32 => match v {
            WireValue::Int(n) => Ok(NativeArg::I32(trunc_i32(*n))),
            WireValue::UInt(n) => if *n <= i64::MAX as u64 {
                Ok(NativeArg::I32(trunc_i32(*n as i64)))
            } else {
                Err(BridgeError::Marshal)
            },
            _ => Err(BridgeError::Marshal),
        },
        TypeTag::U64 => match v {
            WireValue::Text(t) => match parse_u64(t.as_slice()) {
                Some(n) => Ok(NativeArg::U64(n)),
                None => Err(BridgeError::Marshal),
            },
            _ => Err(BridgeError::Marshal),
        },
        TypeTag::I64 => match v {
            WireValue::Text(t) => match parse_i64(t.as_slice()) {
                Some(n) => Ok(NativeArg::I64(n)),
                None => Err(BridgeError::Marshal),
            },
            _ => Err(BridgeError::Marshal),
        },
        TypeTag::F32 => match v {
            WireValue::F32Bits(b) => Ok(NativeArg::F32Bits(*b)),
            _ => Err(BridgeError::Marshal),
        },
        TypeTag::F64 => match v {
            WireValue::F64Bits(b) => Ok(NativeArg::F64Bits(*b)),
            _ => Err(BridgeError::Marshal),
        },
        TypeTag::Str => match v {
            WireValue::Text(t) => match make_c_string(t) {
                Ok(c) => Ok(NativeArg::CString(c)),
                Err(e) => Err(e),
            },
            _ => Err(BridgeError::Marshal),
        },
        TypeTag::Ptr => match v {
            WireValue::Bytes(b) => Ok(NativeArg::Buffer(slice_to_vec(b.as_slice()))),
            _ => Err(BridgeError::Marshal),
        },
    }
}

/// What marshalling the first `i` parameters yields: the arguments in
/// order, or the first error.
pub open spec fn marshal_prefix_spec(ps: Seq<ParamV>, i: int) -> Result<
    Seq<NativeArgV>,
    BridgeError,
>
    decreases i,
{
    if i <= 0 {
        Ok(Seq::empty())
    } else {
        match marshal_prefix_spec(ps, i - 1) {
            Err(e) => Err(e),
            Ok(rest) => match marshal_spec(ps[i - 1].tag, ps[i - 1].value) {
                Err(e) => Err(e),
                Ok(a) => Ok(rest.push(a)),
            },
        }
    }
}

/// What marshalling a whole parameter list yields.
pub open spec fn marshal_params_spec(ps: Seq<ParamV>) -> Result<Seq<NativeArgV>, BridgeError> {
    marshal_prefix_spec(ps, ps.len() as int)
}

/// Once a prefix fails, every longer prefix reports the same error.
proof fn lemma_marshal_prefix_err(ps: Seq<ParamV>, i: int, j: int)
    requires
        0 <= i <= j,
        marshal_prefix_spec(ps, i) is Err,
    ensures
        marshal_prefix_spec(ps, j) == marshal_prefix_spec(ps, i),
    decreases j - i,
{
    if i < j {
        lemma_marshal_prefix_err(ps, i, j - 1);
    }
}

/// Marshals a parameter list in order, stopping at the first failure; no
/// native call happens before every parameter has converted.
pub fn marshal_params(params: &Vec<Param>) -> (r: Result<Vec<NativeArg>, BridgeError>)
    ensures
        match r {
            Ok(args) => marshal_params_spec(params_view(params@)) == Ok::<
                Seq<NativeArgV>,
                BridgeError,
            >(args_view(args@)),
            Err(e) => marshal_params_spec(params_view(params@)) == Err::<
                Seq<NativeArgV>,
                BridgeError,
            >(e),
        },
{
    let ghost pv = params_view(params@);
    let n = params.len();
    let mut out: Vec<NativeArg> = Vec::new();
    let mut i: usize = 0;
    proof {
        assert(pv.len() == n);
        assert(args_view(out@) =~= Seq::<NativeArgV>::empty());
    }
    while i < n
        invariant
            i <= n == params@.len(),
            pv == params_view(params@),
            pv.len() == n,
            marshal_prefix_spec(pv, i as int) == Ok::<Seq<NativeArgV>, BridgeError>(
                args_view(out@),
            ),
        decreases n - i,
    {
        let p = &params[i];
        proof {
            assert(pv[i as int] == params@[i as int]@);
        }
        match marshal_param(p.tag, &p.value) {
            Err(e) => {
                proof {
                    assert(marshal_prefix_spec(pv, i + 1) == Err::<Seq<NativeArgV>, BridgeError>(
                        e,
                    ));
                    lemma_marshal_prefix_err(pv, i + 1, pv.len() as int);
                }
                return Err(e);
            },
            Ok(a) => {
                let ghost prev = args_view(out@);
                out.push(a);
                proof {
                    assert(args_view(out@) =~= prev.push(a@));
                }
                i = i + 1;
            },
        }
    }
    Ok(out)
}

} // verus!
