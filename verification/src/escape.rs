use vstd::prelude::*;

use crate::text::push_char;

verus! {

/// How one character comes out of the JSON escaping step. Deliberately
/// narrow: only newlines and double quotes are escaped; backslashes and
/// control characters pass through untouched and can corrupt the emitted
/// JSON. That is kept as-is for output parity rather than silently widened.
pub open spec fn spec_escape_char(c: char) -> Seq<char> {
    if c == '\n' {
        seq!['\\', 'n']
    } else if c == '"' {
        seq!['\\', '"']
    } else {
        seq![c]
    }
}

/// The whole string passed through the narrow JSON escaping step.
pub open spec fn spec_escape_json(s: Seq<char>) -> Seq<char>
    decreases s.len(),
{
    if s.len() == 0 {
        Seq::empty()
    } else {
        spec_escape_json(s.drop_last()) + spec_escape_char(s.last())
    }
}

/// Escapes newline and double-quote characters so the value can stand
/// inside a JSON string literal (see `spec_escape_char` for the limits).
pub fn escape_json(value: &str) -> (r: String)
    ensures
        r@ == spec_escape_json(value@),
{
    let len = value.unicode_len();
    let mut out = String::new();
    let mut i: usize = 0;
    proof {
        assert(out@ =~= spec_escape_json(value@.take(0)));
    }
    while i < len
        invariant
            len == value@.len(),
            0 <= i <= len,
            out@ == spec_escape_json(value@.take(i as int)),
        decreases len - i,
    {
        proof {
            assert(value@.take(i + 1).drop_last() =~= value@.take(i as int));
            assert(value@.take(i + 1).last() == value@[i as int]);
        }
        let c = value.get_char(i);
        if c == '\n' {
            push_char(&mut out, '\\');
            push_char(&mut out, 'n');
        } else if c == '"' {
            push_char(&mut out, '\\');
            push_char(&mut out, '"');
        } else {
            push_char(&mut out, c);
        }
        proof {
            assert(out@ =~= spec_escape_json(value@.take(i + 1)));
        }
        i = i + 1;
    }
    proof {
        assert(value@.take(len as int) =~= value@);
    }
    out
}

/// A string with no newline and no double quote passes through the JSON
/// escaping step unchanged.
pub proof fn lemma_escape_json_identity(s: Seq<char>)
    requires
        forall|i: int| 0 <= i < s.len() ==> s[i] != '\n' && s[i] != '"',
    ensures
        spec_escape_json(s) == s,
    decreases s.len(),
{
    if s.len() == 0 {
        assert(spec_escape_json(s) =~= s);
    } else {
        lemma_escape_json_identity(s.drop_last());
        assert(spec_escape_json(s) =~= s.drop_last() + seq![s.last()]);
        assert(s.drop_last() + seq![s.last()] =~= s);
    }
}

} // verus!
