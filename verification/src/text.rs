//! Texts as `widestring::U32String` and `widestring::U32Str`, the string of 32-bit code
//! points and the slice of one that callers hand to this library.
//!
//! The library reads such a string into a vector and writes a vector back to it.
//! Nothing here is proved: what is said of the functions below is what the source of
//! `widestring` shows of the methods that they call.

use vstd::prelude::*;
use widestring::U32Str;
use widestring::U32String;

verus! {

/// `widestring::U32String`, a vector of `u32` under another name. The library sees
/// nothing inside it.
#[verifier::external_type_specification]
#[verifier::external_body]
pub struct ExU32String(widestring::U32String);

/// The code points that a wide string holds, in their order.
pub uninterp spec fn text_of(s: &U32String) -> Seq<u32>;

/// Calls `U32String::as_vec` and copies what it returns, which is the vector inside the
/// string: the code points of the string, as many as it holds and in the same order.
#[verifier::external_body]
pub(crate) fn code_points(s: &U32String) -> (v: Vec<u32>)
    ensures
        v@ == text_of(s),
{
    s.as_vec().clone()
}

/// Calls `U32String::from_vec`, which makes the vector the inside of a new string
/// without a look at what it holds: the string holds the code points of the vector, in
/// the same order.
#[verifier::external_body]
pub(crate) fn from_code_points(v: Vec<u32>) -> (s: U32String)
    ensures
        text_of(&s) == v@,
{
    U32String::from_vec(v)
}

/// Calls `U32String::as_mut_vec`, which hands out the vector inside the string, and
/// overwrites that vector with a copy of `v`: afterwards the string holds the code
/// points of `v` and nothing else.
#[verifier::external_body]
pub(crate) fn set_code_points(s: &mut U32String, v: &Vec<u32>)
    ensures
        text_of(final(s)) == v@,
{
    s.as_mut_vec().clone_from(v)
}

/// `widestring::U32Str`, a slice of `u32` under another name. The library sees nothing
/// inside it.
#[verifier::external_type_specification]
#[verifier::external_body]
pub struct ExU32Str(widestring::U32Str);

/// The code points that a wide string slice holds, in their order.
pub uninterp spec fn slice_of(s: &U32Str) -> Seq<u32>;

/// Calls `U32Str::as_slice`, which returns the slice inside the string slice, and copies
/// it: the code points of the string slice, as many as it holds and in the same order.
#[verifier::external_body]
pub(crate) fn slice_code_points(s: &U32Str) -> (v: Vec<u32>)
    ensures
        v@ == slice_of(s),
{
    s.as_slice().to_vec()
}

/// Calls `U32Str::as_mut_slice`, which hands out the slice inside the string slice, and
/// copies `v` over it: afterwards the string slice holds the code points of `v`. The
/// two must be of one length, or the copy panics.
#[verifier::external_body]
pub(crate) fn set_slice_code_points(s: &mut U32Str, v: &Vec<u32>)
    requires
        v.len() == slice_of(old(s)).len(),
    ensures
        slice_of(final(s)) == v@,
{
    s.as_mut_slice().copy_from_slice(v)
}

} // verus!
