//! File and scenario access support.
//!
//! Configuration and scenario files are owned and parsed by the host engine;
//! a vessel module sees them only through an opaque [`FileHandle`] and a set
//! of typed tag queries.  The host signals an absent tag with a `false`
//! "found" flag and leaves the caller's buffer untouched; the accessor layer
//! must surface that as the documented zero-value default, never as an
//! error.  The functions here are the verified completion of each typed
//! read: the unverified rim performs the host query and hands the outcome —
//! the found flag and whatever the host wrote — to them.

use vstd::prelude::*;

verus! {

/// Handle of a host-owned file, valid between the host's open and close
/// calls.  The module stores and returns it; it never interprets the value.
#[derive(Debug, Clone, Copy, PartialEq, Eq, Hash, Structural)]
pub struct FileHandle(pub usize);

/// Result of an integer tag query: the host's value where the tag was
/// found, the documented default of `0` where it was absent.
pub fn read_i32_value(found: bool, host_value: i32) -> (r: i32)
    ensures
        r == (if found { host_value } else { 0i32 }),
{
    if found {
        host_value
    } else {
        0
    }
}

/// Result of a boolean tag query: the host's value where the tag was found,
/// the documented default of `false` where it was absent.
pub fn read_bool_value(found: bool, host_value: bool) -> (r: bool)
    ensures
        r == (found && host_value),
{
    found && host_value
}

/// Result of a string tag query: the host's value where the tag was found,
/// the documented default of the empty string where it was absent.
pub fn read_string_value(found: bool, host_value: String) -> (r: String)
    ensures
        found ==> r@ == host_value@,
        !found ==> r@ === Seq::<char>::empty(),
{
    if found {
        host_value
    } else {
        String::new()
    }
}

/// The string a host tag query leaves in a caller-supplied byte buffer: the
/// bytes before the first NUL.  The host fills at most the found tag's text
/// and leaves the rest of the zero-initialised buffer untouched, so the
/// result is exactly the prefix of `buf` up to, and not including, the
/// first zero byte.
pub fn nul_terminated_prefix(buf: &Vec<u8>) -> (r: Vec<u8>)
    ensures
        r@.len() <= buf@.len(),
        r@ == buf@.take(r@.len() as int),
        forall|j: int| 0 <= j < r@.len() ==> buf@[j] != 0,
        r@.len() < buf@.len() ==> buf@[r@.len() as int] == 0,
{
    let mut n: usize = 0;
    while n < buf.len() && buf[n] != 0
        invariant
            n <= buf@.len(),
            forall|j: int| 0 <= j < n ==> buf@[j] != 0,
        decreases buf@.len() - n,
    {
        n += 1;
    }
    let mut out: Vec<u8> = Vec::new();
    let mut i: usize = 0;
    while i < n
        invariant
            i <= n,
            n <= buf@.len(),
            out@ == buf@.take(i as int),
            forall|j: int| 0 <= j < n ==> buf@[j] != 0,
            n < buf@.len() ==> buf@[n as int] == 0,
        decreases n - i,
    {
        out.push(buf[i]);
        proof {
            assert(out@ =~= buf@.take(i + 1));
        }
        i += 1;
    }
    out
}

} // verus!
