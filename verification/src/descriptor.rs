use vstd::prelude::*;

verus! {

/// The kind of a command-line field: a bare positional argument, a boolean
/// switch, a value-taking option, or the field that routes to sub-commands.
#[derive(Clone, Copy, PartialEq, Eq, Structural)]
pub enum FieldKind {
    Positional,
    Switch,
    Option,
    SubCommand,
}

/// How many times a field may (or must) appear on the command line; this
/// governs `[...]` bracketing and the `...` ellipsis in usage syntax.
#[derive(Clone, Copy, PartialEq, Eq, Structural)]
pub enum Optionality {
    Required,
    Optional,
    Repeating,
}

impl Optionality {
    pub open spec fn spec_is_required(&self) -> bool {
        *self is Required
    }

    /// True only for fields that must be given on the command line.
    #[verifier::when_used_as_spec(spec_is_required)]
    pub fn is_required(&self) -> (r: bool)
        ensures
            r == self.spec_is_required(),
    {
        matches!(self, Optionality::Required)
    }
}

/// One argument of a command, as the metadata extractor hands it over:
/// fully populated plain data, consumed read-only by both renderers.
pub struct FieldDescriptor {
    pub kind: FieldKind,
    pub optionality: Optionality,
    /// The long form with its leading dashes (for example `--force`);
    /// present exactly for switches and value-taking options.
    pub long_name: Option<String>,
    /// The single-character short form, if one was declared.
    pub short_name: Option<char>,
    /// An explicit placeholder name for a value-taking option's value; when
    /// absent, the long name stripped of its leading dashes is used.
    pub arg_name_override: Option<String>,
    /// The field's documentation; its absence is a validation error for any
    /// field rendered as an option or positional.
    pub description: Option<String>,
    /// The display name of the field (the positional argument name).
    pub name: String,
    /// Identifies the field's source location, carried into diagnostics.
    pub span: u64,
}

/// Per-command metadata, alongside the field list.
pub struct CommandDescriptor {
    /// The command's documentation; its absence is a validation error.
    pub description: Option<String>,
    /// Free-form usage examples; each may contain the `{command_name}` token.
    pub examples: Vec<String>,
    /// Free-form notes; same interpolation rule as examples.
    pub notes: Vec<String>,
    /// `(code, text)` pairs, rendered in declaration order.
    pub error_codes: Vec<(String, String)>,
    /// Identifies the command's source location, carried into diagnostics.
    pub span: u64,
}

/// The schema invariant the metadata extractor guarantees: a field carries a
/// long name exactly when it is a switch or a value-taking option.
pub open spec fn wf_field(f: FieldDescriptor) -> bool {
    f.long_name is Some <==> (f.kind is Switch || f.kind is Option)
}

/// Every field of the list satisfies the schema invariant.
pub open spec fn wf_fields(fields: Seq<FieldDescriptor>) -> bool {
    forall|i: int| 0 <= i < fields.len() ==> #[trigger] wf_field(fields[i])
}

} // verus!
