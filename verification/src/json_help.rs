use vstd::prelude::*;

use crate::descriptor::{CommandDescriptor, FieldDescriptor, wf_fields};
use crate::escape::{escape_json, spec_escape_json};
use crate::text::push_char;
use crate::usage::{build_usage_command_line, spec_usage_line};
use crate::validate::{Errors, require_description, spec_described, spec_description_diags};
use crate::text_help::{spec_option_diags, spec_positional_diags};
use vstd::slice::slice_index_get;

verus! {

/// One entry of the JSON options array, before serialization.
pub struct OptionHelp {
    pub short: String,
    pub long: String,
    pub description: String,
}

/// One name/description entry of a JSON array (positional arguments and
/// error codes share this shape).
pub struct PositionalHelp {
    pub name: String,
    pub description: String,
}

/// The staging structure of the JSON path: every section of the document
/// gathered as plain data, built fresh on each render and then serialized.
pub struct HelpJSON {
    pub usage: String,
    pub description: String,
    pub positional_args: Vec<PositionalHelp>,
    pub options: Vec<OptionHelp>,
    pub examples: String,
    pub notes: String,
    pub error_codes: Vec<PositionalHelp>,
}

/// The contents of an options entry, as the strings it holds.
pub open spec fn spec_option_views(options: Seq<OptionHelp>) -> Seq<(Seq<char>, Seq<char>, Seq<char>)> {
    options.map_values(|o: OptionHelp| (o.short@, o.long@, o.description@))
}

/// The contents of a name/description entry, as the strings it holds.
pub open spec fn spec_positional_views(elements: Seq<PositionalHelp>) -> Seq<(Seq<char>, Seq<char>)> {
    elements.map_values(|p: PositionalHelp| (p.name@, p.description@))
}

/// One serialized element of the options array; only the description passes
/// through the JSON escaping step.
pub open spec fn spec_option_element(t: (Seq<char>, Seq<char>, Seq<char>)) -> Seq<char> {
    "{\"short\": \""@ + t.0 + "\", \"long\": \""@ + t.1 + "\", \"description\": \""@
        + spec_escape_json(t.2) + "\"}"@
}

/// The serialized options array body: elements joined by the fixed
/// continuation separator.
pub open spec fn spec_option_elements(ts: Seq<(Seq<char>, Seq<char>, Seq<char>)>) -> Seq<char>
    decreases ts.len(),
{
    if ts.len() == 0 {
        Seq::empty()
    } else if ts.len() == 1 {
        spec_option_element(ts[0])
    } else {
        spec_option_elements(ts.drop_last()) + ",\n    "@ + spec_option_element(ts.last())
    }
}

/// One serialized name/description element; only the description passes
/// through the JSON escaping step.
pub open spec fn spec_help_element(t: (Seq<char>, Seq<char>)) -> Seq<char> {
    "{\"name\": \""@ + t.0 + "\", \"description\": \""@ + spec_escape_json(t.1) + "\"}"@
}

/// The serialized body of a name/description array.
pub open spec fn spec_help_elements(ts: Seq<(Seq<char>, Seq<char>)>) -> Seq<char>
    decreases ts.len(),
{
    if ts.len() == 0 {
        Seq::empty()
    } else if ts.len() == 1 {
        spec_help_element(ts[0])
    } else {
        spec_help_elements(ts.drop_last()) + ",\n    "@ + spec_help_element(ts.last())
    }
}

impl HelpJSON {
    /// Serializes the gathered options into the body of the JSON `options`
    /// array.
    pub fn option_elements_json(&self) -> (r: String)
        ensures
            r@ == spec_option_elements(spec_option_views(self.options@)),
    {
        let ghost views = spec_option_views(self.options@);
        let mut retval = String::new();
        let mut i: usize = 0;
        proof {
            assert(views.take(0) =~= Seq::<(Seq<char>, Seq<char>, Seq<char>)>::empty());
        }
        while i < self.options.len()
            invariant
                views == spec_option_views(self.options@),
                views.len() == self.options@.len(),
                0 <= i <= self.options@.len(),
                retval@ == spec_option_elements(views.take(i as int)),
            decreases self.options.len() - i,
        {
            proof {
                assert(views.take(i + 1).drop_last() =~= views.take(i as int));
                assert(views.take(i + 1).last() == views[i as int]);
                assert(views[i as int] == (
                    self.options@[i as int].short@,
                    self.options@[i as int].long@,
                    self.options@[i as int].description@,
                ));
            }
            if i > 0 {
                retval.append(",\n    ");
            }
            let opt = &self.options[i];
            retval.append("{\"short\": \"");
            retval.append(opt.short.as_str());
            retval.append("\", \"long\": \"");
            retval.append(opt.long.as_str());
            retval.append("\", \"description\": \"");
            let escaped = escape_json(opt.description.as_str());
            retval.append(escaped.as_str());
            retval.append("\"}");
            proof {
                assert(retval@ =~= spec_option_elements(views.take(i + 1)));
            }
            i = i + 1;
        }
        proof {
            assert(views.take(views.len() as int) =~= views);
        }
        retval
    }

    /// Serializes name/description entries into the body of a JSON array.
    pub fn help_elements_json(elements: &[PositionalHelp]) -> (r: String)
        ensures
            r@ == spec_help_elements(spec_positional_views(elements@)),
    {
        let ghost views = spec_positional_views(elements@);
        let mut retval = String::new();
        let mut i: usize = 0;
        proof {
            assert(views.take(0) =~= Seq::<(Seq<char>, Seq<char>)>::empty());
        }
        while i < elements.len()
            invariant
                views == spec_positional_views(elements@),
                views.len() == elements@.len(),
                0 <= i <= elements@.len(),
                retval@ == spec_help_elements(views.take(i as int)),
            decreases elements.len() - i,
        {
            proof {
                assert(views.take(i + 1).drop_last() =~= views.take(i as int));
                assert(views.take(i + 1).last() == views[i as int]);
                assert(views[i as int] == (
                    elements@[i as int].name@,
                    elements@[i as int].description@,
                ));
            }
            if i > 0 {
                retval.append(",\n    ");
            }
            let pos = slice_index_get(elements, i);
            retval.append("{\"name\": \"");
            retval.append(pos.name.as_str());
            retval.append("\", \"description\": \"");
            let escaped = escape_json(pos.description.as_str());
            retval.append(escaped.as_str());
            retval.append("\"}");
            proof {
                assert(retval@ =~= spec_help_elements(views.take(i + 1)));
            }
            i = i + 1;
        }
        proof {
            assert(views.take(views.len() as int) =~= views);
        }
        retval
    }
}

/// The options-array views contributed by the declared fields, in order.
pub open spec fn spec_json_declared_tuples(fields: Seq<FieldDescriptor>) -> Seq<
    (Seq<char>, Seq<char>, Seq<char>),
>
    decreases fields.len(),
{
    if fields.len() == 0 {
        Seq::empty()
    } else {
        spec_json_declared_tuples(fields.drop_last()) + (if fields.last().long_name is Some {
            seq![
                (
                    match fields.last().short_name {
                        Some(c) => seq![c],
                        None => Seq::<char>::empty(),
                    },
                    fields.last().long_name.unwrap()@,
                    spec_described(fields.last().description),
                ),
            ]
        } else {
            Seq::<(Seq<char>, Seq<char>, Seq<char>)>::empty()
        })
    }
}

/// The synthetic `--help` entry of the JSON options array.
pub open spec fn spec_help_tuple() -> (Seq<char>, Seq<char>, Seq<char>) {
    (Seq::empty(), "--help"@, "display usage information"@)
}

/// The synthetic `--help-json` entry of the JSON options array.
pub open spec fn spec_help_json_tuple() -> (Seq<char>, Seq<char>, Seq<char>) {
    (Seq::empty(), "--help-json"@, "display usage information encoded in JSON"@)
}

/// Every entry of the JSON options array: the declared ones, then the two
/// synthetic ones, always last.
pub open spec fn spec_json_option_tuples(fields: Seq<FieldDescriptor>) -> Seq<
    (Seq<char>, Seq<char>, Seq<char>),
> {
    spec_json_declared_tuples(fields) + seq![spec_help_tuple(), spec_help_json_tuple()]
}

/// The positional-array views: one per positional field, in order.
pub open spec fn spec_json_positional_tuples(fields: Seq<FieldDescriptor>) -> Seq<
    (Seq<char>, Seq<char>),
>
    decreases fields.len(),
{
    if fields.len() == 0 {
        Seq::empty()
    } else {
        spec_json_positional_tuples(fields.drop_last()) + (if fields.last().kind is Positional {
            seq![(fields.last().name@, spec_described(fields.last().description))]
        } else {
            Seq::<(Seq<char>, Seq<char>)>::empty()
        })
    }
}

/// The error-code-array views: the raw code and text pairs, in declaration
/// order; the text passes through the escaping step once, at serialization.
pub open spec fn spec_json_error_tuples(codes: Seq<(String, String)>) -> Seq<
    (Seq<char>, Seq<char>),
>
    decreases codes.len(),
{
    if codes.len() == 0 {
        Seq::empty()
    } else {
        spec_json_error_tuples(codes.drop_last()) + seq![(codes.last().0@, codes.last().1@)]
    }
}

/// All the literals of a section concatenated with no separator.
pub open spec fn spec_concat_lits(lits: Seq<String>) -> Seq<char>
    decreases lits.len(),
{
    if lits.len() == 0 {
        Seq::empty()
    } else {
        spec_concat_lits(lits.drop_last()) + lits.last()@
    }
}

/// The JSON help template: every section serialized at definition time,
/// with the command name and the sub-command list left as the two deferred
/// slots that `render_help_json` resolves.
pub struct JsonHelpTemplate {
    /// The usage line with its `{command_name}` slot still open; inserted
    /// into the document without escaping.
    pub usage_pattern: String,
    /// The validated command description, escaped.
    pub description: String,
    /// The body of the `options` array.
    pub options_json: String,
    /// The body of the `positional` array.
    pub positional_json: String,
    /// The concatenated examples, escaped, `{command_name}` slot open.
    pub examples_pattern: String,
    /// The concatenated notes, escaped, `{command_name}` slot open.
    pub notes_pattern: String,
    /// The body of the `error_codes` array.
    pub error_codes_json: String,
}

/// The diagnostics one JSON render records: the positional entries', then
/// the options', then the command's own description, in that order.
pub open spec fn spec_help_json_diags(
    cmd: CommandDescriptor,
    fields: Seq<FieldDescriptor>,
) -> Seq<(u64, Seq<char>)> {
    spec_positional_diags(fields) + spec_option_diags(fields) + spec_description_diags(
        cmd.description,
        cmd.span,
        "type"@,
    )
}

/// Concatenates the literals of a section into one string.
fn concat_lits(lits: &Vec<String>) -> (r: String)
    ensures
        r@ == spec_concat_lits(lits@),
{
    let mut out = String::new();
    let mut i: usize = 0;
    proof {
        assert(out@ =~= spec_concat_lits(lits@.take(0)));
    }
    while i < lits.len()
        invariant
            0 <= i <= lits@.len(),
            out@ == spec_concat_lits(lits@.take(i as int)),
        decreases lits.len() - i,
    {
        proof {
            assert(lits@.take(i + 1).drop_last() =~= lits@.take(i as int));
            assert(lits@.take(i + 1).last() == lits@[i as int]);
        }
        out.append(lits[i].as_str());
        i = i + 1;
    }
    proof {
        assert(lits@.take(lits@.len() as int) =~= lits@);
    }
    out
}

/// Builds the JSON help template for one command: gathers every section
/// into the staging structure, validating descriptions along the way, and
/// serializes it field by field. The `{command_name}` slot and the
/// sub-command list are resolved later by `render_help_json`.
#[verifier::rlimit(100)]
pub fn help_json(
    errors: &mut Errors,
    cmd: &CommandDescriptor,
    fields: &Vec<FieldDescriptor>,
    subcommand: Option<&FieldDescriptor>,
) -> (template: JsonHelpTemplate)
    requires
        wf_fields(fields@),
    ensures
        template.usage_pattern@ == "{command_name}"@ + spec_usage_line(
            fields@,
            match subcommand {
                Some(f) => Some(*f),
                None => None,
            },
        ),
        template.description@ == spec_escape_json(spec_described(cmd.description)),
        template.options_json@ == spec_option_elements(spec_json_option_tuples(fields@)),
        template.positional_json@ == spec_help_elements(spec_json_positional_tuples(fields@)),
        template.examples_pattern@ == spec_escape_json(spec_concat_lits(cmd.examples@)),
        template.notes_pattern@ == spec_escape_json(spec_concat_lits(cmd.notes@)),
        template.error_codes_json@ == spec_help_elements(spec_json_error_tuples(cmd.error_codes@)),
        final(errors)@ == old(errors)@ + spec_help_json_diags(*cmd, fields@),
{
    let mut usage_format_pattern = String::from_str("{command_name}");
    build_usage_command_line(&mut usage_format_pattern, fields, subcommand);

    let mut positional_args: Vec<PositionalHelp> = Vec::new();
    let mut options: Vec<OptionHelp> = Vec::new();
    let mut error_codes: Vec<PositionalHelp> = Vec::new();

    let mut i: usize = 0;
    proof {
        assert(spec_positional_views(positional_args@) =~= spec_json_positional_tuples(
            fields@.take(0),
        ));
        assert(errors@ =~= old(errors)@ + spec_positional_diags(fields@.take(0)));
    }
    while i < fields.len()
        invariant
            wf_fields(fields@),
            0 <= i <= fields@.len(),
            spec_positional_views(positional_args@) == spec_json_positional_tuples(
                fields@.take(i as int),
            ),
            errors@ == old(errors)@ + spec_positional_diags(fields@.take(i as int)),
        decreases fields.len() - i,
    {
        proof {
            assert(fields@.take(i + 1).drop_last() =~= fields@.take(i as int));
            assert(fields@.take(i + 1).last() == fields@[i as int]);
        }
        if matches!(fields[i].kind, crate::descriptor::FieldKind::Positional) {
            let description = require_description(
                errors,
                fields[i].span,
                &fields[i].description,
                "field",
            );
            let name = fields[i].name.clone();
            positional_args.push(PositionalHelp { name, description });
        }
        proof {
            assert(spec_positional_views(positional_args@) =~= spec_json_positional_tuples(
                fields@.take(i + 1),
            ));
            assert(errors@ =~= old(errors)@ + spec_positional_diags(fields@.take(i + 1)));
        }
        i = i + 1;
    }
    proof {
        assert(fields@.take(fields@.len() as int) =~= fields@);
    }
    let ghost diags1 = errors@;

    let mut j: usize = 0;
    proof {
        assert(spec_option_views(options@) =~= spec_json_declared_tuples(fields@.take(0)));
    }
    while j < fields.len()
        invariant
            wf_fields(fields@),
            0 <= j <= fields@.len(),
            spec_option_views(options@) == spec_json_declared_tuples(fields@.take(j as int)),
            errors@ == diags1 + spec_option_diags(fields@.take(j as int)),
        decreases fields.len() - j,
    {
        proof {
            assert(fields@.take(j + 1).drop_last() =~= fields@.take(j as int));
            assert(fields@.take(j + 1).last() == fields@[j as int]);
        }
        if fields[j].long_name.is_some() {
            let mut short = String::new();
            match &fields[j].short_name {
                Some(c) => {
                    push_char(&mut short, *c);
                },
                None => {},
            }
            let long = fields[j].long_name.as_ref().unwrap().clone();
            let description = require_description(
                errors,
                fields[j].span,
                &fields[j].description,
                "field",
            );
            options.push(OptionHelp { short, long, description });
        }
        proof {
            assert(spec_option_views(options@) =~= spec_json_declared_tuples(
                fields@.take(j + 1),
            ));
            assert(errors@ =~= diags1 + spec_option_diags(fields@.take(j + 1)));
        }
        j = j + 1;
    }
    proof {
        assert(fields@.take(fields@.len() as int) =~= fields@);
    }

    options.push(
        OptionHelp {
            short: String::new(),
            long: String::from_str("--help"),
            description: String::from_str("display usage information"),
        },
    );
    options.push(
        OptionHelp {
            short: String::new(),
            long: String::from_str("--help-json"),
            description: String::from_str("display usage information encoded in JSON"),
        },
    );
    proof {
        assert(spec_option_views(options@) =~= spec_json_option_tuples(fields@));
    }

    let description_text = require_description(errors, cmd.span, &cmd.description, "type");

    let mut k: usize = 0;
    proof {
        assert(spec_positional_views(error_codes@) =~= spec_json_error_tuples(
            cmd.error_codes@.take(0),
        ));
    }
    while k < cmd.error_codes.len()
        invariant
            0 <= k <= cmd.error_codes@.len(),
            spec_positional_views(error_codes@) == spec_json_error_tuples(
                cmd.error_codes@.take(k as int),
            ),
        decreases cmd.error_codes.len() - k,
    {
        proof {
            assert(cmd.error_codes@.take(k + 1).drop_last() =~= cmd.error_codes@.take(k as int));
            assert(cmd.error_codes@.take(k + 1).last() == cmd.error_codes@[k as int]);
        }
        let name = cmd.error_codes[k].0.clone();
        let description = cmd.error_codes[k].1.clone();
        error_codes.push(PositionalHelp { name, description });
        proof {
            assert(spec_positional_views(error_codes@) =~= spec_json_error_tuples(
                cmd.error_codes@.take(k + 1),
            ));
        }
        k = k + 1;
    }
    proof {
        assert(cmd.error_codes@.take(cmd.error_codes@.len() as int) =~= cmd.error_codes@);
    }

    let help_obj = HelpJSON {
        usage: usage_format_pattern,
        description: description_text,
        positional_args,
        options,
        examples: concat_lits(&cmd.examples),
        notes: concat_lits(&cmd.notes),
        error_codes,
    };

    let options_json = help_obj.option_elements_json();
    let positional_json = HelpJSON::help_elements_json(help_obj.positional_args.as_slice());
    let error_codes_json = HelpJSON::help_elements_json(help_obj.error_codes.as_slice());
    let description = escape_json(help_obj.description.as_str());
    let examples_pattern = escape_json(help_obj.examples.as_str());
    let notes_pattern = escape_json(help_obj.notes.as_str());

    proof {
        assert(errors@ =~= old(errors)@ + spec_help_json_diags(*cmd, fields@));
    }
    JsonHelpTemplate {
        usage_pattern: help_obj.usage,
        description,
        options_json,
        positional_json,
        examples_pattern,
        notes_pattern,
        error_codes_json,
    }
}

/// One element of the runtime `subcommands` array; the reported names and
/// descriptions are inserted as they are.
pub open spec fn spec_json_subcommand_element(p: (Seq<char>, Seq<char>)) -> Seq<char> {
    "{\"name\": \""@ + p.0 + "\", \"description\": \""@ + p.1 + "\"}"@
}

/// The body of the runtime `subcommands` array.
pub open spec fn spec_json_subcommand_elements(subs: Seq<(String, String)>) -> Seq<char>
    decreases subs.len(),
{
    if subs.len() == 0 {
        Seq::empty()
    } else if subs.len() == 1 {
        spec_json_subcommand_element((subs[0].0@, subs[0].1@))
    } else {
        spec_json_subcommand_elements(subs.drop_last()) + ",\n    "@
            + spec_json_subcommand_element((subs.last().0@, subs.last().1@))
    }
}

/// Serializes the sub-command variants reported at render time.
fn json_subcommand_elements(subcommands: &Vec<(String, String)>) -> (r: String)
    ensures
        r@ == spec_json_subcommand_elements(subcommands@),
{
    let mut out = String::new();
    let mut i: usize = 0;
    proof {
        assert(subcommands@.take(0) =~= Seq::<(String, String)>::empty());
    }
    while i < subcommands.len()
        invariant
            0 <= i <= subcommands@.len(),
            out@ == spec_json_subcommand_elements(subcommands@.take(i as int)),
        decreases subcommands.len() - i,
    {
        proof {
            assert(subcommands@.take(i + 1).drop_last() =~= subcommands@.take(i as int));
            assert(subcommands@.take(i + 1).last() == subcommands@[i as int]);
        }
        if i > 0 {
            out.append(",\n    ");
        }
        out.append("{\"name\": \"");
        out.append(subcommands[i].0.as_str());
        out.append("\", \"description\": \"");
        out.append(subcommands[i].1.as_str());
        out.append("\"}");
        proof {
            assert(out@ =~= spec_json_subcommand_elements(subcommands@.take(i + 1)));
        }
        i = i + 1;
    }
    proof {
        assert(subcommands@.take(subcommands@.len() as int) =~= subcommands@);
    }
    out
}

/// The finished JSON document: the object with its fixed key order, the
/// `{command_name}` slots resolved from the invocation path, and the
/// `subcommands` array resolved from the reported variants.
pub open spec fn spec_render_help_json(
    t: JsonHelpTemplate,
    command_path: Seq<Seq<char>>,
    subcommands: Seq<(String, String)>,
) -> Seq<char> {
    let name = crate::text::spec_join_space(command_path);
    "{\n\"usage\": \""@ + crate::text::spec_substitute(t.usage_pattern@, "{command_name}"@, name)
        + "\",\n\"description\": \""@ + t.description@ + "\",\n\"options\": ["@ + t.options_json@
        + "],\n\"positional\": ["@ + t.positional_json@ + "],\n\"examples\": \""@
        + crate::text::spec_substitute(t.examples_pattern@, "{command_name}"@, name)
        + "\",\n\"notes\": \""@ + crate::text::spec_substitute(
        t.notes_pattern@,
        "{command_name}"@,
        name,
    ) + "\",\n\"error_codes\": ["@ + t.error_codes_json@ + "],\n\"subcommands\": ["@
        + spec_json_subcommand_elements(subcommands) + "]\n}\n"@
}

/// Resolves the two deferred slots of a JSON help template and assembles
/// the document (give an empty variants list when the command has no
/// sub-command field, which yields an empty `subcommands` array).
pub fn render_help_json(
    template: &JsonHelpTemplate,
    command_path: &Vec<String>,
    subcommands: &Vec<(String, String)>,
) -> (r: String)
    ensures
        r@ == spec_render_help_json(*template, command_path.deep_view(), subcommands@),
{
    proof {
        reveal_strlit("{command_name}");
    }
    let name = crate::text::join_space(command_path);
    let usage_value = crate::text::substitute(
        template.usage_pattern.as_str(),
        "{command_name}",
        name.as_str(),
    );
    let examples_value = crate::text::substitute(
        template.examples_pattern.as_str(),
        "{command_name}",
        name.as_str(),
    );
    let notes_value = crate::text::substitute(
        template.notes_pattern.as_str(),
        "{command_name}",
        name.as_str(),
    );
    let subs = json_subcommand_elements(subcommands);

    let mut out = String::from_str("{\n\"usage\": \"");
    out.append(usage_value.as_str());
    out.append("\",\n\"description\": \"");
    out.append(template.description.as_str());
    out.append("\",\n\"options\": [");
    out.append(template.options_json.as_str());
    out.append("],\n\"positional\": [");
    out.append(template.positional_json.as_str());
    out.append("],\n\"examples\": \"");
    out.append(examples_value.as_str());
    out.append("\",\n\"notes\": \"");
    out.append(notes_value.as_str());
    out.append("\",\n\"error_codes\": [");
    out.append(template.error_codes_json.as_str());
    out.append("],\n\"subcommands\": [");
    out.append(subs.as_str());
    out.append("]\n}\n");
    proof {
        assert(out@ =~= spec_render_help_json(
            *template,
            command_path.deep_view(),
            subcommands@,
        ));
    }
    out
}

} // verus!
