use vstd::prelude::*;

use crate::descriptor::{CommandDescriptor, FieldDescriptor, wf_fields};
use crate::text::push_char;
use crate::usage::{build_usage_command_line, spec_usage_line};
use crate::validate::{
    Errors, require_description, spec_described, spec_description_diags,
};
use crate::wrap::{indent, spec_indent, wrapped_entry, write_description_entry};

verus! {

/// A literal's text with every newline followed by the indentation prefix,
/// so that each of its lines starts an indented output line.
pub open spec fn spec_indented_lines(value: Seq<char>) -> Seq<char>
    decreases value.len(),
{
    if value.len() == 0 {
        Seq::empty()
    } else {
        spec_indented_lines(value.drop_last()) + (if value.last() == '\n' {
            seq!['\n'] + spec_indent()
        } else {
            seq![value.last()]
        })
    }
}

/// One literal of an examples or notes section: a newline, the indentation
/// prefix, then the literal with its inner lines indented the same way.
pub open spec fn spec_lit_lines(value: Seq<char>) -> Seq<char> {
    seq!['\n'] + spec_indent() + spec_indented_lines(value)
}

/// Every literal of a section, in order.
pub open spec fn spec_lits_lines(lits: Seq<String>) -> Seq<char>
    decreases lits.len(),
{
    if lits.len() == 0 {
        Seq::empty()
    } else {
        spec_lits_lines(lits.drop_last()) + spec_lit_lines(lits.last()@)
    }
}

/// A section composed of exactly the literals provided: absent when there
/// are none, else the separator, the heading, and the indented literals.
pub open spec fn spec_lits_section(heading: Seq<char>, lits: Seq<String>) -> Seq<char> {
    if lits.len() == 0 {
        Seq::empty()
    } else {
        "\n\n"@ + heading + spec_lits_lines(lits)
    }
}

/// Appends a section composed of exactly the literals provided, or nothing
/// when there are none.
pub fn lits_section(out: &mut String, heading: &str, lits: &Vec<String>)
    ensures
        final(out)@ == old(out)@ + spec_lits_section(heading@, lits@),
{
    if lits.len() == 0 {
        proof {
            assert(out@ =~= old(out)@ + spec_lits_section(heading@, lits@));
        }
        return ;
    }
    out.append("\n\n");
    out.append(heading);
    let ghost base = out@;
    let mut i: usize = 0;
    while i < lits.len()
        invariant
            0 <= i <= lits@.len(),
            out@ == base + spec_lits_lines(lits@.take(i as int)),
        decreases lits.len() - i,
    {
        proof {
            assert(lits@.take(i + 1).drop_last() =~= lits@.take(i as int));
            assert(lits@.take(i + 1).last() == lits@[i as int]);
        }
        push_char(out, '\n');
        out.append(indent());
        let value = &lits[i];
        let len = value.as_str().unicode_len();
        let ghost mid = out@;
        let mut j: usize = 0;
        while j < len
            invariant
                len == value@.len(),
                0 <= j <= len,
                out@ == mid + spec_indented_lines(value@.take(j as int)),
            decreases len - j,
        {
            proof {
                assert(value@.take(j + 1).drop_last() =~= value@.take(j as int));
                assert(value@.take(j + 1).last() == value@[j as int]);
            }
            let c = value.as_str().get_char(j);
            if c == '\n' {
                push_char(out, '\n');
                out.append(indent());
            } else {
                push_char(out, c);
            }
            proof {
                assert(out@ =~= mid + spec_indented_lines(value@.take(j + 1)));
            }
            j = j + 1;
        }
        proof {
            assert(value@.take(len as int) =~= value@);
            assert(out@ =~= base + spec_lits_lines(lits@.take(i + 1)));
        }
        i = i + 1;
    }
    proof {
        assert(lits@.take(lits@.len() as int) =~= lits@);
    }
}

/// The two-column entry of one positional field in the text document.
pub open spec fn spec_positional_entry(f: FieldDescriptor) -> Seq<char> {
    wrapped_entry(f.name@, spec_described(f.description))
}

/// The name column of an option entry: the short form first when one
/// exists, then the long form, as in `-f, --force`.
pub open spec fn spec_option_entry_name(short: Option<char>, long: Seq<char>) -> Seq<char> {
    (match short {
        Some(c) => seq!['-', c, ',', ' '],
        None => Seq::<char>::empty(),
    }) + long
}

/// The two-column entry of one switch or option in the text document.
pub open spec fn spec_option_entry(f: FieldDescriptor) -> Seq<char>
    recommends
        f.long_name is Some,
{
    wrapped_entry(
        spec_option_entry_name(f.short_name, f.long_name.unwrap()@),
        spec_described(f.description),
    )
}

/// The synthetic `--help` entry, always appended to the options listing.
pub open spec fn spec_help_entry() -> Seq<char> {
    wrapped_entry("--help"@, "display usage information"@)
}

/// The synthetic `--help-json` entry, always appended after `--help`.
pub open spec fn spec_help_json_entry() -> Seq<char> {
    wrapped_entry("--help-json"@, "display usage information encoded in JSON"@)
}

/// Appends one name/description entry through the wrapping collaborator.
pub fn positional_description_format(out: &mut String, name: &str, description: &str)
    ensures
        final(out)@ == old(out)@ + wrapped_entry(name@, description@),
{
    write_description_entry(out, name, description);
}

/// Appends the entry of one positional field, validating its description.
pub fn positional_description(errors: &mut Errors, out: &mut String, field: &FieldDescriptor)
    ensures
        final(out)@ == old(out)@ + spec_positional_entry(*field),
        final(errors)@ == old(errors)@ + spec_description_diags(
            field.description,
            field.span,
            "field"@,
        ),
{
    let description = require_description(errors, field.span, &field.description, "field");
    positional_description_format(out, field.name.as_str(), description.as_str());
}

/// Appends one option entry (name column built from the short and long
/// forms) through the wrapping collaborator.
pub fn option_description_format(
    out: &mut String,
    short: Option<char>,
    long_with_leading_dashes: &str,
    description: &str,
)
    ensures
        final(out)@ == old(out)@ + wrapped_entry(
            spec_option_entry_name(short, long_with_leading_dashes@),
            description@,
        ),
{
    let mut name = String::new();
    if let Some(short) = short {
        push_char(&mut name, '-');
        push_char(&mut name, short);
        name.append(", ");
    }
    name.append(long_with_leading_dashes);
    proof {
        reveal_strlit(", ");
        assert(name@ =~= spec_option_entry_name(short, long_with_leading_dashes@));
    }
    write_description_entry(out, name.as_str(), description);
}

/// Appends the entry of one switch or option, validating its description;
/// only called on fields that carry a long name.
pub fn option_description(errors: &mut Errors, out: &mut String, field: &FieldDescriptor)
    requires
        field.long_name is Some,
    ensures
        final(out)@ == old(out)@ + spec_option_entry(*field),
        final(errors)@ == old(errors)@ + spec_description_diags(
            field.description,
            field.span,
            "field"@,
        ),
{
    let description = require_description(errors, field.span, &field.description, "field");
    let short = match &field.short_name {
        Some(c) => Some(*c),
        None => None,
    };
    option_description_format(
        out,
        short,
        field.long_name.as_ref().unwrap().as_str(),
        description.as_str(),
    );
}

/// Whether at least one field of the list is positional; exactly then the
/// text document carries a `Positional Arguments:` section.
pub open spec fn spec_has_positional(fields: Seq<FieldDescriptor>) -> bool {
    exists|i: int| 0 <= i < fields.len() && fields[i].kind is Positional
}

/// The entries of the `Positional Arguments:` section, in declaration order.
pub open spec fn spec_positional_entries(fields: Seq<FieldDescriptor>) -> Seq<char>
    decreases fields.len(),
{
    if fields.len() == 0 {
        Seq::empty()
    } else {
        spec_positional_entries(fields.drop_last()) + (if fields.last().kind is Positional {
            spec_positional_entry(fields.last())
        } else {
            Seq::<char>::empty()
        })
    }
}

/// The entries of declared switches and options, in declaration order.
pub open spec fn spec_option_entries(fields: Seq<FieldDescriptor>) -> Seq<char>
    decreases fields.len(),
{
    if fields.len() == 0 {
        Seq::empty()
    } else {
        spec_option_entries(fields.drop_last()) + (if fields.last().long_name is Some {
            spec_option_entry(fields.last())
        } else {
            Seq::<char>::empty()
        })
    }
}

/// The whole options listing of the text document: the declared entries
/// followed by the two synthetic entries.
pub open spec fn spec_options_listing(fields: Seq<FieldDescriptor>) -> Seq<char> {
    spec_option_entries(fields) + spec_help_entry() + spec_help_json_entry()
}

/// The diagnostics the positional entries contribute, in declaration order.
pub open spec fn spec_positional_diags(fields: Seq<FieldDescriptor>) -> Seq<(u64, Seq<char>)>
    decreases fields.len(),
{
    if fields.len() == 0 {
        Seq::empty()
    } else {
        spec_positional_diags(fields.drop_last()) + (if fields.last().kind is Positional {
            spec_description_diags(fields.last().description, fields.last().span, "field"@)
        } else {
            Seq::<(u64, Seq<char>)>::empty()
        })
    }
}

/// The diagnostics the option entries contribute, in declaration order.
pub open spec fn spec_option_diags(fields: Seq<FieldDescriptor>) -> Seq<(u64, Seq<char>)>
    decreases fields.len(),
{
    if fields.len() == 0 {
        Seq::empty()
    } else {
        spec_option_diags(fields.drop_last()) + (if fields.last().long_name is Some {
            spec_description_diags(fields.last().description, fields.last().span, "field"@)
        } else {
            Seq::<(u64, Seq<char>)>::empty()
        })
    }
}

/// A field list without positionals renders no positional entries and
/// records no positional diagnostics.
pub proof fn lemma_no_positionals(fields: Seq<FieldDescriptor>)
    requires
        !spec_has_positional(fields),
    ensures
        spec_positional_entries(fields) == Seq::<char>::empty(),
        spec_positional_diags(fields) == Seq::<(u64, Seq<char>)>::empty(),
    decreases fields.len(),
{
    if fields.len() > 0 {
        assert(!spec_has_positional(fields.drop_last())) by {
            if spec_has_positional(fields.drop_last()) {
                let i = choose|i: int|
                    0 <= i < fields.drop_last().len() && fields.drop_last()[i].kind
                        is Positional;
                assert(fields[i].kind is Positional);
            }
        }
        lemma_no_positionals(fields.drop_last());
        assert(!(fields.last().kind is Positional));
        assert(spec_positional_entries(fields) =~= Seq::<char>::empty());
        assert(spec_positional_diags(fields) =~= Seq::<(u64, Seq<char>)>::empty());
    }
}

/// The `Error codes:` lines: each code and its text on one indented line,
/// in declaration order.
pub open spec fn spec_error_code_lines(codes: Seq<(String, String)>) -> Seq<char>
    decreases codes.len(),
{
    if codes.len() == 0 {
        Seq::empty()
    } else {
        spec_error_code_lines(codes.drop_last()) + seq!['\n'] + spec_indent() + codes.last().0@
            + seq![' '] + codes.last().1@
    }
}

/// The full text help template for one command: all sections in their fixed
/// order, with the `{command_name}` and `{subcommands}` slots still open.
pub open spec fn spec_help_template(
    cmd: CommandDescriptor,
    fields: Seq<FieldDescriptor>,
    subcommand: Option<FieldDescriptor>,
) -> Seq<char> {
    "Usage: {command_name}"@ + spec_usage_line(fields, subcommand) + "\n\n"@ + spec_described(
        cmd.description,
    ) + (if spec_has_positional(fields) {
        "\n\nPositional Arguments:"@ + spec_positional_entries(fields)
    } else {
        Seq::<char>::empty()
    }) + "\n\nOptions:"@ + spec_options_listing(fields) + (if subcommand is Some {
        "\n\nCommands:{subcommands}"@
    } else {
        Seq::<char>::empty()
    }) + spec_lits_section("Examples:"@, cmd.examples@) + spec_lits_section(
        "Notes:"@,
        cmd.notes@,
    ) + (if cmd.error_codes@.len() > 0 {
        "\n\nError codes:"@ + spec_error_code_lines(cmd.error_codes@)
    } else {
        Seq::<char>::empty()
    }) + seq!['\n']
}

/// The diagnostics one text render records: the command's own description
/// first, then the positional entries', then the options', in order.
pub open spec fn spec_help_diags(
    cmd: CommandDescriptor,
    fields: Seq<FieldDescriptor>,
) -> Seq<(u64, Seq<char>)> {
    spec_description_diags(cmd.description, cmd.span, "type"@) + spec_positional_diags(fields)
        + spec_option_diags(fields)
}

/// Renders the full human-readable help template for one command: the usage
/// line, the validated description, the positional and option listings with
/// the synthetic `--help`/`--help-json` entries, the `Commands:` slot when a
/// sub-command field exists, the literal sections, and the error-code table.
/// The `{command_name}` and `{subcommands}` slots are resolved later by
/// `render_help`.
#[verifier::rlimit(100)]
pub fn help(
    errors: &mut Errors,
    cmd: &CommandDescriptor,
    fields: &Vec<FieldDescriptor>,
    subcommand: Option<&FieldDescriptor>,
) -> (template: String)
    requires
        wf_fields(fields@),
    ensures
        template@ == spec_help_template(
            *cmd,
            fields@,
            match subcommand {
                Some(f) => Some(*f),
                None => None,
            },
        ),
        final(errors)@ == old(errors)@ + spec_help_diags(*cmd, fields@),
{
    let ghost subm: Option<FieldDescriptor> = match subcommand {
        Some(f) => Some(*f),
        None => None,
    };
    let mut format_lit = String::from_str("Usage: {command_name}");
    build_usage_command_line(&mut format_lit, fields, subcommand);

    format_lit.append("\n\n");
    let description = require_description(errors, cmd.span, &cmd.description, "type");
    format_lit.append(description.as_str());
    let ghost diags0 = errors@;

    let mut has_positional = false;
    let mut i: usize = 0;
    while i < fields.len()
        invariant
            0 <= i <= fields@.len(),
            has_positional == spec_has_positional(fields@.take(i as int)),
        decreases fields.len() - i,
    {
        proof {
            let pre = fields@.take(i as int);
            let post = fields@.take(i + 1);
            assert(post.drop_last() =~= pre);
            assert(post.last() == fields@[i as int]);
            assert(forall|k: int| 0 <= k < i ==> post[k] == pre[k]);
            if fields@[i as int].kind is Positional {
                assert(post[i as int].kind is Positional);
                assert(spec_has_positional(post));
            } else {
                if spec_has_positional(post) {
                    let k = choose|k: int| 0 <= k < post.len() && post[k].kind is Positional;
                    assert(pre[k] == post[k]);
                    assert(spec_has_positional(pre));
                }
            }
        }
        if matches!(fields[i].kind, crate::descriptor::FieldKind::Positional) {
            has_positional = true;
        }
        i = i + 1;
    }
    proof {
        assert(fields@.take(fields@.len() as int) =~= fields@);
    }

    if has_positional {
        format_lit.append("\n\nPositional Arguments:");
        let ghost base = format_lit@;
        let mut i: usize = 0;
        while i < fields.len()
            invariant
                0 <= i <= fields@.len(),
                format_lit@ == base + spec_positional_entries(fields@.take(i as int)),
                errors@ == diags0 + spec_positional_diags(fields@.take(i as int)),
            decreases fields.len() - i,
        {
            proof {
                assert(fields@.take(i + 1).drop_last() =~= fields@.take(i as int));
                assert(fields@.take(i + 1).last() == fields@[i as int]);
            }
            if matches!(fields[i].kind, crate::descriptor::FieldKind::Positional) {
                positional_description(errors, &mut format_lit, &fields[i]);
            }
            proof {
                assert(format_lit@ =~= base + spec_positional_entries(fields@.take(i + 1)));
                assert(errors@ =~= diags0 + spec_positional_diags(fields@.take(i + 1)));
            }
            i = i + 1;
        }
        proof {
            assert(fields@.take(fields@.len() as int) =~= fields@);
        }
    } else {
        proof {
            lemma_no_positionals(fields@);
        }
    }
    let ghost diags1 = errors@;

    format_lit.append("\n\nOptions:");
    let ghost base2 = format_lit@;
    let mut j: usize = 0;
    while j < fields.len()
        invariant
            0 <= j <= fields@.len(),
            format_lit@ == base2 + spec_option_entries(fields@.take(j as int)),
            errors@ == diags1 + spec_option_diags(fields@.take(j as int)),
        decreases fields.len() - j,
    {
        proof {
            assert(fields@.take(j + 1).drop_last() =~= fields@.take(j as int));
            assert(fields@.take(j + 1).last() == fields@[j as int]);
        }
        if fields[j].long_name.is_some() {
            option_description(errors, &mut format_lit, &fields[j]);
        }
        proof {
            assert(format_lit@ =~= base2 + spec_option_entries(fields@.take(j + 1)));
            assert(errors@ =~= diags1 + spec_option_diags(fields@.take(j + 1)));
        }
        j = j + 1;
    }
    proof {
        assert(fields@.take(fields@.len() as int) =~= fields@);
    }
    option_description_format(&mut format_lit, None, "--help", "display usage information");
    option_description_format(
        &mut format_lit,
        None,
        "--help-json",
        "display usage information encoded in JSON",
    );
    proof {
        assert(spec_option_entry_name(None, "--help"@) =~= "--help"@);
        assert(spec_option_entry_name(None, "--help-json"@) =~= "--help-json"@);
    }

    if subcommand.is_some() {
        format_lit.append("\n\nCommands:{subcommands}");
    }

    lits_section(&mut format_lit, "Examples:", &cmd.examples);
    lits_section(&mut format_lit, "Notes:", &cmd.notes);

    if cmd.error_codes.len() > 0 {
        format_lit.append("\n\nError codes:");
        let ghost base3 = format_lit@;
        let mut k: usize = 0;
        while k < cmd.error_codes.len()
            invariant
                0 <= k <= cmd.error_codes@.len(),
                format_lit@ == base3 + spec_error_code_lines(cmd.error_codes@.take(k as int)),
            decreases cmd.error_codes.len() - k,
        {
            proof {
                assert(cmd.error_codes@.take(k + 1).drop_last() =~= cmd.error_codes@.take(
                    k as int,
                ));
                assert(cmd.error_codes@.take(k + 1).last() == cmd.error_codes@[k as int]);
            }
            push_char(&mut format_lit, '\n');
            format_lit.append(indent());
            format_lit.append(cmd.error_codes[k].0.as_str());
            push_char(&mut format_lit, ' ');
            format_lit.append(cmd.error_codes[k].1.as_str());
            proof {
                assert(format_lit@ =~= base3 + spec_error_code_lines(
                    cmd.error_codes@.take(k + 1),
                ));
            }
            k = k + 1;
        }
        proof {
            assert(cmd.error_codes@.take(cmd.error_codes@.len() as int) =~= cmd.error_codes@);
        }
    }

    push_char(&mut format_lit, '\n');
    proof {
        assert(format_lit@ =~= spec_help_template(*cmd, fields@, subm));
        assert(errors@ =~= old(errors)@ + spec_help_diags(*cmd, fields@));
    }
    format_lit
}

/// The `Commands:` listing resolved at render time: one wrapped entry per
/// routable variant, in the order the sub-command capability reports them.
pub open spec fn spec_subcommand_listing(subcommands: Seq<(String, String)>) -> Seq<char>
    decreases subcommands.len(),
{
    if subcommands.len() == 0 {
        Seq::empty()
    } else {
        spec_subcommand_listing(subcommands.drop_last()) + wrapped_entry(
            subcommands.last().0@,
            subcommands.last().1@,
        )
    }
}

/// Formats the sub-command variants the same way as options and positionals.
pub fn subcommand_listing(subcommands: &Vec<(String, String)>) -> (r: String)
    ensures
        r@ == spec_subcommand_listing(subcommands@),
{
    let mut out = String::new();
    let mut i: usize = 0;
    proof {
        assert(out@ =~= spec_subcommand_listing(subcommands@.take(0)));
    }
    while i < subcommands.len()
        invariant
            0 <= i <= subcommands@.len(),
            out@ == spec_subcommand_listing(subcommands@.take(i as int)),
        decreases subcommands.len() - i,
    {
        proof {
            assert(subcommands@.take(i + 1).drop_last() =~= subcommands@.take(i as int));
            assert(subcommands@.take(i + 1).last() == subcommands@[i as int]);
        }
        write_description_entry(&mut out, subcommands[i].0.as_str(), subcommands[i].1.as_str());
        i = i + 1;
    }
    proof {
        assert(subcommands@.take(subcommands@.len() as int) =~= subcommands@);
    }
    out
}

/// The finished text document: the template with the `{command_name}` slot
/// resolved from the invocation path, then the `{subcommands}` slot resolved
/// from the reported variants.
pub open spec fn spec_render_help(
    template: Seq<char>,
    command_path: Seq<Seq<char>>,
    subcommands: Seq<(String, String)>,
) -> Seq<char> {
    crate::text::spec_substitute(
        crate::text::spec_substitute(
            template,
            "{command_name}"@,
            crate::text::spec_join_space(command_path),
        ),
        "{subcommands}"@,
        spec_subcommand_listing(subcommands),
    )
}

/// Resolves the two deferred slots of a text help template: the command
/// name from the invocation path components, and the sub-command listing
/// from the variants the sub-command capability reports (give an empty list
/// when the command has no sub-command field).
pub fn render_help(
    template: &str,
    command_path: &Vec<String>,
    subcommands: &Vec<(String, String)>,
) -> (r: String)
    ensures
        r@ == spec_render_help(template@, command_path.deep_view(), subcommands@),
{
    proof {
        reveal_strlit("{command_name}");
        reveal_strlit("{subcommands}");
    }
    let name = crate::text::join_space(command_path);
    let listing = subcommand_listing(subcommands);
    let with_name = crate::text::substitute(template, "{command_name}", name.as_str());
    crate::text::substitute(with_name.as_str(), "{subcommands}", listing.as_str())
}

} // verus!
