use vstd::prelude::*;

use crate::text::{trim_of, trim_str};

verus! {

/// One recorded validation failure, tied to an entity's source location.
pub struct Diagnostic {
    pub span: u64,
    pub message: String,
}

/// The per-render collector of validation failures: rendering never aborts
/// on a missing description, it records the failure here and goes on, so a
/// single pass surfaces every missing description at once.
pub struct Errors {
    pub diagnostics: Vec<Diagnostic>,
}

impl View for Errors {
    type V = Seq<(u64, Seq<char>)>;

    open spec fn view(&self) -> Seq<(u64, Seq<char>)> {
        self.diagnostics@.map(|i: int, d: Diagnostic| (d.span, d.message@))
    }
}

impl Errors {
    /// A fresh collector with no diagnostics.
    pub fn new() -> (r: Errors)
        ensures
            r@ == Seq::<(u64, Seq<char>)>::empty(),
    {
        let r = Errors { diagnostics: Vec::new() };
        proof {
            assert(r@ =~= Seq::<(u64, Seq<char>)>::empty());
        }
        r
    }

    /// How many failures the pass has recorded so far.
    pub fn len(&self) -> (n: usize)
        ensures
            n == self@.len(),
    {
        self.diagnostics.len()
    }

    /// Records one failure against the given source location.
    pub fn err_span(&mut self, span: u64, message: String)
        ensures
            final(self)@ == old(self)@.push((span, message@)),
    {
        let ghost m = message@;
        self.diagnostics.push(Diagnostic { span, message });
        proof {
            assert(self@ =~= old(self)@.push((span, m)));
        }
    }
}

/// The diagnostic text recorded for an undocumented entity of the given
/// kind (`"type"` for the command itself, `"field"` for an argument).
pub open spec fn spec_missing_description_message(kind: Seq<char>) -> Seq<char> {
    "#[derive(FromArgs)] "@ + kind
        + " with no description.\nAdd a doc comment or an `#[argh(description = \"...\")]` attribute."@
}

/// What the collector gains from one pass of `require_description`: nothing
/// when a description is present, one diagnostic when it is missing.
pub open spec fn spec_description_diags(
    desc: Option<String>,
    span: u64,
    kind: Seq<char>,
) -> Seq<(u64, Seq<char>)> {
    match desc {
        Some(_) => Seq::empty(),
        None => seq![(span, spec_missing_description_message(kind))],
    }
}

/// The trimmed description an entity contributes to the rendered output:
/// the empty string stands in when the description is missing.
pub open spec fn spec_described(desc: Option<String>) -> Seq<char> {
    match desc {
        Some(d) => trim_of(d@),
        None => Seq::empty(),
    }
}

/// The single choke point every description passes through: returns the
/// trimmed text when present; otherwise records a diagnostic against the
/// entity's location and returns the empty string so rendering can proceed.
pub fn require_description(
    errors: &mut Errors,
    err_span: u64,
    desc: &Option<String>,
    kind: &str,
) -> (r: String)
    ensures
        r@ == spec_described(*desc),
        final(errors)@ == old(errors)@ + spec_description_diags(*desc, err_span, kind@),
{
    match desc {
        Some(d) => {
            let r = trim_str(d.as_str());
            proof {
                assert(old(errors)@ + spec_description_diags(*desc, err_span, kind@)
                    =~= old(errors)@);
            }
            r
        },
        None => {
            let mut message = String::from_str("#[derive(FromArgs)] ");
            message.append(kind);
            message.append(
                " with no description.\nAdd a doc comment or an `#[argh(description = \"...\")]` attribute.",
            );
            errors.err_span(err_span, message);
            proof {
                assert(errors@ =~= old(errors)@ + spec_description_diags(*desc, err_span, kind@));
            }
            String::new()
        },
    }
}

} // verus!
