//! The decisions of the C interface: how a color fills a slot, how a
//! caller's declared struct size is honoured, and what the change poll
//! answers. The interface itself (raw pointers, the process-wide cache)
//! stands outside the library.

use vstd::prelude::*;

use crate::color::{packed, Rgba};
use crate::theme::Signature;

verus! {

/// A color slot's word: the packed `0xRRGGBBAA` color, or 0 (alpha 0) when
/// the color is unavailable.
pub fn rgba_slot(color: Option<Rgba>) -> (v: u32)
    ensures
        v == match color {
            Some(c) => packed(c),
            None => 0,
        },
{
    match color {
        Some(c) => c.to_u32(),
        None => 0,
    }
}

/// How a load request is served.
#[derive(Clone, Copy, Debug, PartialEq, Eq, Structural)]
pub enum LoadPlan {
    /// The declared size is too small to hold even the header fields.
    Reject,
    /// An older, smaller struct: fill a full copy and hand over this many
    /// leading bytes.
    Prefix(u32),
    /// The caller's struct is at least as large as the library's.
    Full,
}

/// The size of the header fields every version of the struct starts with.
pub const HEADER_SIZE: u32 = 24;

/// The plan for a caller that declared `abi_size` bytes, when the library's
/// struct has `ours` bytes.
pub fn load_plan(abi_size: u32, ours: u32) -> (p: LoadPlan)
    ensures
        abi_size < HEADER_SIZE ==> p == LoadPlan::Reject,
        HEADER_SIZE <= abi_size < ours ==> p == LoadPlan::Prefix(abi_size),
        HEADER_SIZE <= abi_size && abi_size >= ours ==> p == LoadPlan::Full,
{
    if abi_size == 0 || abi_size < HEADER_SIZE {
        LoadPlan::Reject
    } else if abi_size >= ours {
        LoadPlan::Full
    } else {
        LoadPlan::Prefix(abi_size)
    }
}

/// The error code of the C interface (`OMARCHY_ERR`).
pub const CODE_ERROR: i32 = -1;

/// The change poll's answer: 1 when the theme changed since the last load,
/// 0 when it did not, negative on error. With nothing loaded yet it is 1
/// exactly when a theme can be loaded (`fresh`), else 0; while a swap is in
/// flight (`colors_present` false) it is 0; otherwise it compares the
/// freshly loaded signature, and is `CODE_ERROR` when none could be loaded.
pub fn poll_code(loaded: Option<&Signature>, colors_present: bool, fresh: Option<&Signature>) -> (r: i32)
    ensures
        loaded is None ==> r == (if fresh is Some { 1i32 } else { 0i32 }),
        loaded is Some && !colors_present ==> r == 0,
        loaded is Some && colors_present && fresh is None ==> r == CODE_ERROR,
        loaded is Some && colors_present && fresh is Some ==> r == (if fresh.unwrap()@ != loaded.unwrap()@ {
            1i32
        } else {
            0i32
        }),
{
    match loaded {
        None => match fresh {
            Some(_) => 1,
            None => 0,
        },
        Some(l) => {
            if !colors_present {
                return 0;
            }
            match fresh {
                Some(f) => if *f == *l {
                    0
                } else {
                    1
                },
                None => CODE_ERROR,
            }
        },
    }
}

/// The argument error code of the C interface (`OMARCHY_ERR_ARG`).
pub const CODE_ARG: i32 = -4;

/// The UTF-8 length of a text, in bytes, as `str::len` gives it.
pub open spec fn byte_len(s: Seq<char>) -> usize {
    vstd::utf8::encode_utf8(s).len() as usize
}

/// Which entry a `get` of `key` copies into a buffer of `cap` bytes: the
/// first entry with that key, when its value and the closing NUL fit;
/// `CODE_ERROR` when no entry has the key; `CODE_ARG` when the value does
/// not fit.
pub fn get_entry(entries: &Vec<(String, String)>, key: &str, cap: u32) -> (r: Result<usize, i32>)
    ensures
        r is Err && r->Err_0 == CODE_ERROR <==> (forall|j: int| 0 <= j < entries@.len() ==> #[trigger] entries@[j].0@ != key@),
        r matches Ok(i) ==> i < entries@.len() && entries@[i as int].0@ == key@ && (forall|j: int|
            0 <= j < i ==> #[trigger] entries@[j].0@ != key@) && byte_len(entries@[i as int].1@) + 1 <= cap,
        r matches Err(c) ==> c == CODE_ERROR || c == CODE_ARG,
        r is Err && r->Err_0 == CODE_ARG ==> exists|i: int|
            0 <= i < entries@.len() && #[trigger] entries@[i].0@ == key@ && (forall|j: int|
                0 <= j < i ==> #[trigger] entries@[j].0@ != key@) && byte_len(entries@[i].1@) + 1 > cap,
{
    let k = key.to_owned();
    let mut i: usize = 0;
    while i < entries.len()
        invariant
            i <= entries@.len(),
            k@ == key@,
            forall|j: int| 0 <= j < i ==> #[trigger] entries@[j].0@ != key@,
        decreases entries@.len() - i,
    {
        if entries[i].0 == k {
            let v = entries[i].1.as_str();
            let n = v.len();
            if n >= cap as usize {
                return Err(CODE_ARG);
            }
            return Ok(i);
        }
        i += 1;
    }
    Err(CODE_ERROR)
}

} // verus!
