//! The computable behavior of the sample native library that exercises
//! the bridge: an integer addition and a greeting formatter. The native
//! build of these functions is what the bridge loads and calls; the
//! versions here state what those calls compute.

use vstd::prelude::*;
use vstd::slice::slice_to_vec;

verus! {

/// Adds two 32-bit integers; the sample library's `add(i32, i32) -> i32`.
pub fn add(a: i32, b: i32) -> (r: i32)
    requires
        i32::MIN <= a + b <= i32::MAX,
    ensures
        r == a + b,
{
    a + b
}

/// A pair of fields the sample library reads through a raw pointer.
#[derive(Clone, Copy, Debug, PartialEq, Eq, Structural)]
pub struct TestStruct {
    pub val1: i32,
    pub val2: u32,
}

/// The greeting `hello` produces: the bytes of `"Hello, "` followed by
/// the name.
pub open spec fn greeting(name: Seq<u8>) -> Seq<u8> {
    seq![72u8, 101u8, 108u8, 108u8, 111u8, 44u8, 32u8] + name
}

/// Formats the greeting; the text behind the sample library's
/// `hello(str) -> str`.
pub fn hello(name: &[u8]) -> (r: Vec<u8>)
    ensures
        r@ == greeting(name@),
{
    let mut v: Vec<u8> = Vec::new();
    v.push(72);
    v.push(101);
    v.push(108);
    v.push(108);
    v.push(111);
    v.push(44);
    v.push(32);
    let mut rest = slice_to_vec(name);
    v.append(&mut rest);
    proof {
        assert(v@ =~= greeting(name@));
    }
    v
}

} // verus!
