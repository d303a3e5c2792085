use vstd::prelude::*;

verus! {

/// Characters that a POSIX shell takes literally outside quotes:
/// ASCII letters and digits and `-_./:@%`.
pub open spec fn shell_safe(c: char) -> bool {
    ('a' <= c && c <= 'z') || ('A' <= c && c <= 'Z') || ('0' <= c && c <= '9') || c == '-'
        || c == '_' || c == '.' || c == '/' || c == ':' || c == '@' || c == '%'
}

pub open spec fn all_shell_safe(s: Seq<char>) -> bool {
    forall|i: int| 0 <= i < s.len() ==> shell_safe(#[trigger] s[i])
}

/// `s` with each single quote written as `'\''`, the form that closes a
/// single-quoted word, adds an escaped quote, and opens the word again.
pub open spec fn escape_quotes(s: Seq<char>) -> Seq<char>
    decreases s.len(),
{
    if s.len() == 0 {
        Seq::empty()
    } else {
        escape_quotes(s.drop_last()) + if s.last() == '\'' {
            seq!['\'', '\\', '\'', '\'']
        } else {
            seq![s.last()]
        }
    }
}

/// The shell word for `s`: `s` itself when every character is safe, else `s`
/// in single quotes with its own quotes escaped.
pub open spec fn shell_word(s: Seq<char>) -> Seq<char> {
    if all_shell_safe(s) {
        s
    } else {
        seq!['\''] + escape_quotes(s) + seq!['\'']
    }
}

fn is_shell_safe(c: char) -> (r: bool)
    ensures
        r == shell_safe(c),
{
    ('a' <= c && c <= 'z') || ('A' <= c && c <= 'Z') || ('0' <= c && c <= '9') || c == '-'
        || c == '_' || c == '.' || c == '/' || c == ':' || c == '@' || c == '%'
}

/// Quotes `s` so that a shell reads it back as one word, unchanged.
pub fn sh_quote(s: &str) -> (r: String)
    ensures
        r@ == shell_word(s@),
{
    let len = s.unicode_len();
    let mut safe = true;
    let mut i: usize = 0;
    while i < len
        invariant
            len == s@.len(),
            i <= len,
            safe == (forall|j: int| 0 <= j < i ==> shell_safe(#[trigger] s@[j])),
        decreases len - i,
    {
        let c = s.get_char(i);
        if !is_shell_safe(c) {
            safe = false;
        }
        i = i + 1;
    }
    if safe {
        return String::from_str(s);
    }
    proof {
        reveal_strlit("'");
        reveal_strlit("'\\''");
    }
    let mut out = String::from_str("'");
    let mut k: usize = 0;
    while k < len
        invariant
            len == s@.len(),
            k <= len,
            out@ == seq!['\''] + escape_quotes(s@.subrange(0, k as int)),
        decreases len - k,
    {
        let ghost before = out@;
        let c = s.get_char(k);
        if c == '\'' {
            out.append("'\\''");
        } else {
            out.append(s.substring_char(k, k + 1));
        }
        proof {
            let p = s@.subrange(0, k + 1);
            assert(p.drop_last() =~= s@.subrange(0, k as int));
            assert(p.last() == c);
            assert(s@.subrange(k as int, k + 1) =~= seq![c]);
            reveal_strlit("'\\''");
            assert("'\\''"@ =~= seq!['\'', '\\', '\'', '\'']);
            assert(escape_quotes(p) == escape_quotes(p.drop_last()) + if c == '\'' {
                seq!['\'', '\\', '\'', '\'']
            } else {
                seq![c]
            });
            assert(out@ =~= seq!['\''] + escape_quotes(p));
        }
        k = k + 1;
    }
    out.append("'");
    assert(s@.subrange(0, len as int) =~= s@);
    out
}

} // verus!
