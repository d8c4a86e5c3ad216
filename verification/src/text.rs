use vstd::prelude::*;

verus! {

/// What `str::trim` returns: the string without its leading and trailing
/// whitespace, a function of the characters alone.
pub uninterp spec fn trim_of(s: Seq<char>) -> Seq<char>;

/// Relies on `str::trim`: the result is the input without leading and
/// trailing whitespace, determined by the characters alone.
#[verifier::external_body]
pub fn trim_str(s: &str) -> (r: String)
    ensures
        r@ == trim_of(s@),
{
    s.trim().to_owned()
}

/// Relies on `String::push`: appends exactly the one character.
#[verifier::external_body]
pub fn push_char(out: &mut String, c: char)
    ensures
        final(out)@ == old(out)@ + seq![c],
{
    out.push(c);
}

/// Whether `tok` occurs in `s` starting at position `at`.
fn matches_at(s: &str, at: usize, tok: &str, s_len: usize, tok_len: usize) -> (r: bool)
    requires
        s_len == s@.len(),
        tok_len == tok@.len(),
        at + tok_len <= s_len,
    ensures
        r == (s@.subrange(at as int, at + tok_len) == tok@),
{
    let mut j: usize = 0;
    while j < tok_len
        invariant
            s_len == s@.len(),
            tok_len == tok@.len(),
            at + tok_len <= s_len,
            0 <= j <= tok_len,
            s@.subrange(at as int, at + j) == tok@.subrange(0, j as int),
        decreases tok_len - j,
    {
        if s.get_char(at + j) != tok.get_char(j) {
            proof {
                assert(s@.subrange(at as int, at + tok_len)[j as int] == s@[at + j]);
                assert(tok@[j as int] != s@[at + j]);
            }
            return false;
        }
        proof {
            assert(s@.subrange(at as int, at + j + 1) =~= s@.subrange(at as int, at + j)
                + seq![s@[at + j]]);
            assert(tok@.subrange(0, j + 1) =~= tok@.subrange(0, j as int) + seq![tok@[j as int]]);
        }
        j = j + 1;
    }
    proof {
        assert(tok@.subrange(0, tok_len as int) =~= tok@);
    }
    true
}

/// Every occurrence of `token` in `s`, scanned left to right, replaced by
/// `value`; characters outside occurrences are kept as they are.
pub open spec fn spec_substitute(s: Seq<char>, token: Seq<char>, value: Seq<char>) -> Seq<char>
    recommends
        token.len() > 0,
    decreases s.len(),
        when token.len() > 0
{
    if s.len() == 0 {
        Seq::empty()
    } else if s.len() >= token.len() && s.take(token.len() as int) == token {
        value + spec_substitute(s.skip(token.len() as int), token, value)
    } else {
        seq![s[0]] + spec_substitute(s.skip(1), token, value)
    }
}

/// Replaces every occurrence of `token` in `template` by `value`; the
/// rendered templates resolve their deferred slots through this.
pub fn substitute(template: &str, token: &str, value: &str) -> (r: String)
    requires
        token@.len() > 0,
    ensures
        r@ == spec_substitute(template@, token@, value@),
{
    let t_len = template.unicode_len();
    let tok_len = token.unicode_len();
    let mut out = String::new();
    let mut i: usize = 0;
    proof {
        assert(template@.skip(0) =~= template@);
        assert(Seq::<char>::empty() + spec_substitute(template@, token@, value@)
            =~= spec_substitute(template@, token@, value@));
    }
    while i < t_len
        invariant
            t_len == template@.len(),
            tok_len == token@.len(),
            tok_len > 0,
            0 <= i <= t_len,
            out@ + spec_substitute(template@.skip(i as int), token@, value@)
                == spec_substitute(template@, token@, value@),
        decreases t_len - i,
    {
        let ghost rest = template@.skip(i as int);
        if tok_len <= t_len - i && matches_at(template, i, token, t_len, tok_len) {
            proof {
                assert(rest.take(tok_len as int) =~= template@.subrange(
                    i as int,
                    i + tok_len,
                ));
                assert(rest.skip(tok_len as int) =~= template@.skip(i + tok_len));
            }
            out.append(value);
            i = i + tok_len;
        } else {
            proof {
                if rest.len() >= tok_len {
                    assert(rest.take(tok_len as int) =~= template@.subrange(
                        i as int,
                        i + tok_len,
                    ));
                }
                assert(rest[0] == template@[i as int]);
                assert(rest.skip(1) =~= template@.skip(i + 1));
            }
            let c = template.get_char(i);
            push_char(&mut out, c);
            i = i + 1;
        }
    }
    proof {
        assert(template@.skip(t_len as int) =~= Seq::<char>::empty());
    }
    out
}

/// Whether `sub` occurs somewhere in `s` as a contiguous substring.
pub open spec fn spec_contains(s: Seq<char>, sub: Seq<char>) -> bool {
    exists|k: int|
        0 <= k && k + sub.len() <= s.len() && #[trigger] s.subrange(k, k + sub.len()) == sub
}

/// A template in which the token never occurs passes through substitution
/// unchanged, so resolving a slot is safe also on text that has no slot.
pub proof fn lemma_substitute_absent(s: Seq<char>, token: Seq<char>, value: Seq<char>)
    requires
        token.len() > 0,
        !spec_contains(s, token),
    ensures
        spec_substitute(s, token, value) == s,
    decreases s.len(),
{
    if s.len() == 0 {
        assert(spec_substitute(s, token, value) =~= s);
    } else {
        if s.len() >= token.len() && s.take(token.len() as int) == token {
            assert(s.subrange(0, 0 + token.len() as int) =~= s.take(token.len() as int));
            assert(spec_contains(s, token));
        }
        assert(!spec_contains(s.skip(1), token)) by {
            if spec_contains(s.skip(1), token) {
                let k = choose|k: int|
                    0 <= k && k + token.len() <= s.skip(1).len() && #[trigger] s.skip(1).subrange(
                        k,
                        k + token.len(),
                    ) == token;
                assert(s.subrange(k + 1, k + 1 + token.len()) =~= s.skip(1).subrange(
                    k,
                    k + token.len(),
                ));
                assert(spec_contains(s, token));
            }
        }
        lemma_substitute_absent(s.skip(1), token, value);
        assert(seq![s[0]] + s.skip(1) =~= s);
    }
}

/// A token that opens with a brace cannot occur in text without braces.
pub proof fn lemma_token_absent(s: Seq<char>, token: Seq<char>)
    requires
        token.len() > 0,
        token[0] == '{',
        forall|i: int| 0 <= i < s.len() ==> s[i] != '{',
    ensures
        !spec_contains(s, token),
{
    if spec_contains(s, token) {
        let k = choose|k: int|
            0 <= k && k + token.len() <= s.len() && #[trigger] s.subrange(k, k + token.len())
                == token;
        assert(s.subrange(k, k + token.len())[0] == s[k]);
    }
}

/// Substituting into text that begins with the token replaces exactly that
/// leading occurrence and goes on behind it.
pub proof fn lemma_substitute_prefix_token(token: Seq<char>, rest: Seq<char>, value: Seq<char>)
    requires
        token.len() > 0,
    ensures
        spec_substitute(token + rest, token, value) == value + spec_substitute(
            rest,
            token,
            value,
        ),
{
    let s = token + rest;
    assert(s.take(token.len() as int) =~= token);
    assert(s.skip(token.len() as int) =~= rest);
}

/// The parts joined with a single space between consecutive parts.
pub open spec fn spec_join_space(parts: Seq<Seq<char>>) -> Seq<char>
    decreases parts.len(),
{
    if parts.len() == 0 {
        Seq::empty()
    } else if parts.len() == 1 {
        parts[0]
    } else {
        spec_join_space(parts.drop_last()) + seq![' '] + parts.last()
    }
}

/// Joins the invocation path components with single spaces, yielding the
/// value substituted for the `{command_name}` token.
pub fn join_space(parts: &Vec<String>) -> (r: String)
    ensures
        r@ == spec_join_space(parts.deep_view()),
{
    let mut out = String::new();
    let mut i: usize = 0;
    while i < parts.len()
        invariant
            0 <= i <= parts.deep_view().len(),
            parts.deep_view().len() == parts.len(),
            out@ == spec_join_space(parts.deep_view().take(i as int)),
        decreases parts.len() - i,
    {
        if i > 0 {
            push_char(&mut out, ' ');
        }
        out.append(parts[i].as_str());
        proof {
            let dv = parts.deep_view();
            assert(dv.take(i + 1).drop_last() =~= dv.take(i as int));
            assert(dv.take(i + 1).last() == dv[i as int]);
            assert(dv[i as int] == parts@[i as int]@);
        }
        i = i + 1;
    }
    proof {
        assert(parts.deep_view().take(parts.deep_view().len() as int) =~= parts.deep_view());
    }
    out
}

} // verus!
