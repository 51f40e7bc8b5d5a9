use vstd::prelude::*;
use vstd::string::StringSliceAdditionalSpecFns;

pub mod risk_of_rain;
pub mod risk_of_rain_2;
pub mod risk_of_rain_returns;

verus! {

/// `p` is a prefix of `s`.
pub open spec fn has_prefix(s: Seq<u8>, p: Seq<u8>) -> bool {
    p.len() <= s.len() && s.subrange(0, p.len() as int) == p
}

/// Whether `s` starts with the bytes `p`.
pub fn starts_with_bytes(s: &[u8], p: &[u8]) -> (r: bool)
    ensures
        r == has_prefix(s@, p@),
{
    if s.len() < p.len() {
        return false;
    }
    let mut i: usize = 0;
    while i < p.len()
        invariant
            p@.len() <= s@.len(),
            i <= p@.len(),
            forall|j: int| 0 <= j < i ==> s@[j] == p@[j],
        decreases p@.len() - i,
    {
        if s[i] != p[i] {
            assert(s@.subrange(0, p@.len() as int)[i as int] != p@[i as int]);
            return false;
        }
        i = i + 1;
    }
    assert(s@.subrange(0, p@.len() as int) =~= p@);
    true
}

/// Whether `s` and `t` hold the same bytes.
pub fn bytes_equal(s: &[u8], t: &[u8]) -> (r: bool)
    ensures
        r == (s@ == t@),
{
    if s.len() != t.len() {
        return false;
    }
    let r = starts_with_bytes(s, t);
    proof {
        assert(s@ =~= s@.subrange(0, t@.len() as int));
    }
    r
}

/// Process names are cut to this many bytes on Linux.
pub const LINUX_PROCESS_NAME_LEN: usize = 15;

/// Byte `n` of the UTF-8 bytes `b` starts a character, or is the end.
pub open spec fn is_char_boundary(b: Seq<u8>, n: int) -> bool {
    0 <= n <= b.len() && (n == b.len() || !(0x80 <= b[n] < 0xC0))
}

/// Relies on std's `str` indexing by a range: `&s[..n]` is the string made
/// of the first `n` bytes of `s`, which must end on a character boundary.
#[verifier::external_body]
fn str_prefix<'a>(s: &'a str, n: usize) -> (r: &'a str)
    requires
        is_char_boundary(s.spec_bytes(), n as int),
    ensures
        r.spec_bytes() == s.spec_bytes().subrange(0, n as int),
{
    &s[..n]
}

/// The name a process goes by on the operating system named by `os`: the full
/// executable name, except on Linux, where it is cut to its first fifteen
/// bytes.
pub fn platform_process_name<'a>(process_name: &'a str, os: &str) -> (r: &'a str)
    requires
        has_prefix(os.spec_bytes(), "linux".spec_bytes()) ==> process_name.spec_bytes().len()
            >= LINUX_PROCESS_NAME_LEN && is_char_boundary(process_name.spec_bytes(), LINUX_PROCESS_NAME_LEN as int),
    ensures
        has_prefix(os.spec_bytes(), "linux".spec_bytes()) ==> r.spec_bytes() == process_name.spec_bytes().subrange(0, LINUX_PROCESS_NAME_LEN as int),
        !has_prefix(os.spec_bytes(), "linux".spec_bytes()) ==> r == process_name,
{
    if starts_with_bytes(os.as_bytes(), "linux".as_bytes()) {
        str_prefix(process_name, LINUX_PROCESS_NAME_LEN)
    } else {
        process_name
    }
}

} // verus!
