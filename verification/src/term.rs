//! What the terminal can do, told from its environment.

use vstd::prelude::*;
use vstd::string::StringSliceAdditionalSpecFns;

verus! {

/// Whether `needle` occurs in `haystack` as a run of adjacent bytes.
pub open spec fn occurs_in(needle: Seq<u8>, haystack: Seq<u8>) -> bool {
    exists|at: int| occurs_at(needle, haystack, at)
}

/// Whether `needle` stands in `haystack` at position `at`.
pub open spec fn occurs_at(needle: Seq<u8>, haystack: Seq<u8>, at: int) -> bool {
    &&& 0 <= at
    &&& at + needle.len() <= haystack.len()
    &&& haystack.subrange(at, at + needle.len()) == needle
}

/// Whether `needle` stands in `haystack` at position `at`, which leaves room
/// for it.
fn matches_at(haystack: &[u8], needle: &[u8], at: usize) -> (found: bool)
    requires
        at + needle@.len() <= haystack@.len(),
    ensures
        found == occurs_at(needle@, haystack@, at as int),
{
    let count: usize = needle.len();
    let total: usize = haystack.len();
    let mut i: usize = 0;
    while i < count
        invariant
            i <= count,
            count == needle@.len(),
            total == haystack@.len(),
            at + count <= total,
            forall|j: int| 0 <= j < i ==> haystack@[at + j] == needle@[j],
        decreases count - i,
    {
        if haystack[at + i] != needle[i] {
            proof {
                let window = haystack@.subrange(at as int, at + count);
                assert(window[i as int] == haystack@[at + i]);
            }
            return false;
        }
        i += 1;
    }
    proof {
        assert(haystack@.subrange(at as int, at + count) =~= needle@);
    }
    true
}

/// Whether `needle` occurs in `haystack` as a substring, as `str::contains`
/// tells for a string pattern.
pub fn contains(haystack: &str, needle: &str) -> (found: bool)
    ensures
        found == occurs_in(needle.spec_bytes(), haystack.spec_bytes()),
{
    let hay: &[u8] = haystack.as_bytes();
    let pin: &[u8] = needle.as_bytes();
    if pin.len() > hay.len() {
        return false;
    }
    let last: usize = hay.len() - pin.len();
    let mut at: usize = 0;
    loop
        invariant
            at <= last,
            last + pin@.len() == hay@.len(),
            hay@ == haystack.spec_bytes(),
            pin@ == needle.spec_bytes(),
            forall|k: int| 0 <= k < at ==> !occurs_at(pin@, hay@, k),
        decreases last - at,
    {
        if matches_at(hay, pin, at) {
            return true;
        }
        if at == last {
            return false;
        }
        at += 1;
    }
}

/// Whether a value of the `COLORTERM` variable announces 24-bit color.
pub open spec fn announces_truecolor(value: Seq<u8>) -> bool {
    occurs_in("truecolor".spec_bytes(), value) || occurs_in("24bit".spec_bytes(), value)
}

/// Whether the terminal shows 24-bit colors, told from the value of the
/// `COLORTERM` variable, if it is set.
pub fn truecolor_available(colorterm: Option<&str>) -> (available: bool)
    ensures
        available == (colorterm matches Some(value) && announces_truecolor(value.spec_bytes())),
{
    if let Some(value) = colorterm {
        if contains(value, "truecolor") || contains(value, "24bit") {
            return true;
        }
    }
    false
}

} // verus!
