use vstd::prelude::*;

verus! {

/// Whether `c` may appear in a published file name: `[A-Za-z0-9._-]`.
pub open spec fn name_char(c: char) -> bool {
    ('a' <= c && c <= 'z') || ('A' <= c && c <= 'Z') || ('0' <= c && c <= '9') || c == '.'
        || c == '_' || c == '-'
}

/// No two consecutive dots anywhere in `s`.
pub open spec fn no_parent_step(s: Seq<char>) -> bool {
    forall|i: int| 0 <= i < s.len() - 1 ==> !(#[trigger] s[i] == '.' && s[i + 1] == '.')
}

/// Neither kind of path separator occurs in `s`.
pub open spec fn no_separator(s: Seq<char>) -> bool {
    forall|i: int| 0 <= i < s.len() ==> #[trigger] s[i] != '/' && s[i] != '\\'
}

/// A name that may become a path component of the data directory.
pub open spec fn valid_name(s: Seq<char>) -> bool {
    &&& 1 <= s.len() <= 200
    &&& forall|i: int| 0 <= i < s.len() ==> name_char(#[trigger] s[i])
    &&& no_parent_step(s)
    &&& no_separator(s)
}

fn is_name_char(c: char) -> (r: bool)
    ensures
        r == name_char(c),
{
    ('a' <= c && c <= 'z') || ('A' <= c && c <= 'Z') || ('0' <= c && c <= '9') || c == '.'
        || c == '_' || c == '-'
}

/// Decides whether `name` is accepted as the public name of an upload.
pub fn is_valid_name(name: &str) -> (r: bool)
    ensures
        r == valid_name(name@),
{
    let len = name.unicode_len();
    if len == 0 || len > 200 {
        return false;
    }
    let mut i: usize = 0;
    while i < len
        invariant
            len == name@.len(),
            i <= len,
            forall|j: int| 0 <= j < i ==> name_char(#[trigger] name@[j]),
            forall|j: int| 0 <= j < i ==> #[trigger] name@[j] != '/' && name@[j] != '\\',
            forall|j: int|
                0 <= j && j + 1 < i ==> !(#[trigger] name@[j] == '.' && name@[j + 1] == '.'),
        decreases len - i,
    {
        let c = name.get_char(i);
        if !is_name_char(c) {
            return false;
        }
        if c == '/' || c == '\\' {
            return false;
        }
        if i > 0 && c == '.' && name.get_char(i - 1) == '.' {
            assert(name@[i - 1] == '.' && name@[(i - 1) + 1] == '.');
            return false;
        }
        i = i + 1;
    }
    true
}

} // verus!
