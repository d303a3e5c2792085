use vstd::prelude::*;
use crate::decimal::{decimal, push_decimal};

verus! {

/// What `str::trim` leaves of `s`.
pub uninterp spec fn trim_of(s: Seq<char>) -> Seq<char>;

/// Relies on `str::trim`: the result is `s` without leading and trailing
/// white space, and depends on the characters of `s` alone.
#[verifier::external_body]
fn trim(s: &str) -> (r: String)
    ensures
        r@ == trim_of(s@),
{
    s.trim().to_string()
}

pub open spec fn has_prefix(s: Seq<char>, p: Seq<char>) -> bool {
    p.len() <= s.len() && s.subrange(0, p.len() as int) == p
}

/// `s` without any `/` at its end.
pub open spec fn strip_trailing_slashes(s: Seq<char>) -> Seq<char>
    decreases s.len(),
{
    if s.len() > 0 && s.last() == '/' {
        strip_trailing_slashes(s.drop_last())
    } else {
        s
    }
}

/// The base URL for a configured value that has already been trimmed: the
/// local address on `port` when it is empty; else the value with `https://`
/// put in front unless it names `http://` or `https://`, without trailing
/// slashes.
pub open spec fn base_url_of(t: Seq<char>, port: u16) -> Seq<char> {
    if t.len() == 0 {
        "http://localhost:"@ + decimal(port as nat)
    } else if has_prefix(t, "http://"@) || has_prefix(t, "https://"@) {
        strip_trailing_slashes(t)
    } else {
        strip_trailing_slashes("https://"@ + t)
    }
}

fn starts_with(s: &str, p: &str) -> (r: bool)
    ensures
        r == has_prefix(s@, p@),
{
    let n = p.unicode_len();
    let m = s.unicode_len();
    if n > m {
        return false;
    }
    let mut i: usize = 0;
    while i < n
        invariant
            n == p@.len(),
            m == s@.len(),
            n <= m,
            i <= n,
            forall|j: int| 0 <= j < i ==> s@[j] == p@[j],
        decreases n - i,
    {
        if s.get_char(i) != p.get_char(i) {
            assert(s@.subrange(0, n as int)[i as int] != p@[i as int]);
            return false;
        }
        i = i + 1;
    }
    assert(s@.subrange(0, n as int) =~= p@);
    true
}

fn without_trailing_slashes(s: &str) -> (r: String)
    ensures
        r@ == strip_trailing_slashes(s@),
{
    let mut k = s.unicode_len();
    assert(s@.subrange(0, k as int) =~= s@);
    while k > 0 && s.get_char(k - 1) == '/'
        invariant
            k <= s@.len(),
            strip_trailing_slashes(s@.subrange(0, k as int)) == strip_trailing_slashes(s@),
        decreases k,
    {
        assert(s@.subrange(0, k as int).drop_last() =~= s@.subrange(0, k - 1));
        k = k - 1;
    }
    String::from_str(s.substring_char(0, k))
}

/// The base URL from a configured value that has already been trimmed, for a
/// server bound to `port`.
pub fn base_url_from_trimmed(t: &str, port: u16) -> (r: String)
    ensures
        r@ == base_url_of(t@, port),
{
    if t.unicode_len() == 0 {
        let mut out = String::from_str("http://localhost:");
        push_decimal(&mut out, port as u64);
        return out;
    }
    if starts_with(t, "http://") || starts_with(t, "https://") {
        without_trailing_slashes(t)
    } else {
        let full = String::from_str("https://").concat(t);
        without_trailing_slashes(full.as_str())
    }
}

/// The base URL from the configured value `var` (possibly empty or padded
/// with white space), for a server bound to `port`.
pub fn normalize_base_url(var: String, port: u16) -> (r: String)
    ensures
        r@ == base_url_of(trim_of(var@), port),
{
    let t = trim(var.as_str());
    base_url_from_trimmed(t.as_str(), port)
}

} // verus!
