use vstd::prelude::*;

verus! {

/// What `argh_shared::write_description` appends for a given name column and
/// description: one two-column entry, indented and word-wrapped by that
/// collaborator. Its exact layout is the collaborator's own; contracts here
/// treat it as a function of the two strings alone.
pub uninterp spec fn wrapped_entry(name: Seq<char>, description: Seq<char>) -> Seq<char>;

/// Relies on `argh_shared::write_description`: it only appends to `out`, and
/// what it appends is determined by the entry's name column and description
/// alone (no short alias is passed, so that slot stays empty).
#[verifier::external_body]
pub fn write_description_entry(out: &mut String, name: &str, description: &str)
    ensures
        final(out)@ == old(out)@ + wrapped_entry(name@, description@),
{
    let info = argh_shared::CommandInfo { name, short: &'\0', description };
    argh_shared::write_description(out, &info);
}

/// The indentation prefix shared with the wrapping collaborator.
pub open spec fn spec_indent() -> Seq<char> {
    seq![' ', ' ']
}

/// Relies on `argh_shared::INDENT`: the two-space indentation string.
#[verifier::external_body]
pub fn indent() -> (r: &'static str)
    ensures
        r@ == spec_indent(),
{
    argh_shared::INDENT
}

} // verus!
