use vstd::prelude::*;

use crate::descriptor::{FieldDescriptor, FieldKind, Optionality, wf_field, wf_fields};
use crate::text::push_char;

verus! {

/// A long name with every leading `--` pair removed.
pub open spec fn spec_strip_dashes(s: Seq<char>) -> Seq<char>
    decreases s.len(),
{
    if s.len() >= 2 && s[0] == '-' && s[1] == '-' {
        spec_strip_dashes(s.skip(2))
    } else {
        s
    }
}

/// Strips the leading dashes off a long option name, yielding the default
/// placeholder name for the option's value.
fn strip_leading_dashes(s: &str) -> (r: String)
    ensures
        r@ == spec_strip_dashes(s@),
{
    let len = s.unicode_len();
    let mut i: usize = 0;
    proof {
        assert(s@.skip(0) =~= s@);
    }
    while len - i >= 2 && s.get_char(i) == '-' && s.get_char(i + 1) == '-'
        invariant
            len == s@.len(),
            0 <= i <= len,
            spec_strip_dashes(s@.skip(i as int)) == spec_strip_dashes(s@),
        decreases len - i,
    {
        proof {
            assert(s@.skip(i as int)[0] == s@[i as int]);
            assert(s@.skip(i as int)[1] == s@[i + 1]);
            assert(s@.skip(i as int).skip(2) =~= s@.skip(i + 2));
        }
        i = i + 2;
    }
    let rest = s.substring_char(i, len);
    proof {
        let tail = s@.skip(i as int);
        assert(tail =~= s@.subrange(i as int, len as int));
        assert(!(tail.len() >= 2 && tail[0] == '-' && tail[1] == '-'));
    }
    String::from_str(rest)
}

/// The placeholder name for a value-taking option's value: the explicit
/// override when given, else the long name stripped of its leading dashes.
pub open spec fn spec_arg_placeholder(f: FieldDescriptor) -> Seq<char>
    recommends
        f.long_name is Some,
{
    match f.arg_name_override {
        Some(n) => n@,
        None => spec_strip_dashes(f.long_name.unwrap()@),
    }
}

/// The bare placeholder of one positional field: `<name>`, with `...`
/// before the closing bracket when repeating.
pub open spec fn spec_positional_core(f: FieldDescriptor) -> Seq<char> {
    seq!['<'] + f.name@ + (if f.optionality is Repeating {
        "..."@
    } else {
        Seq::<char>::empty()
    }) + seq!['>']
}

/// The usage fragment of one positional field: its placeholder, enclosed in
/// `[...]` unless the field is required.
pub open spec fn spec_positional_usage(f: FieldDescriptor) -> Seq<char> {
    if f.optionality is Required {
        spec_positional_core(f)
    } else {
        seq!['['] + spec_positional_core(f) + seq![']']
    }
}

/// The flag token shown in the usage line: the short form when one exists,
/// else the long form with its dashes.
pub open spec fn spec_option_flag(f: FieldDescriptor) -> Seq<char>
    recommends
        f.long_name is Some,
{
    match f.short_name {
        Some(c) => seq!['-', c],
        None => f.long_name.unwrap()@,
    }
}

/// The bare fragment of one switch or value-taking option: the flag token,
/// and for a value-taking option its value placeholder, with a repeating
/// ellipsis before the closing bracket.
pub open spec fn spec_option_core(f: FieldDescriptor) -> Seq<char>
    recommends
        f.long_name is Some,
{
    if f.kind is Option {
        spec_option_flag(f) + " <"@ + spec_arg_placeholder(f) + (if f.optionality is Repeating {
            "..."@
        } else {
            Seq::<char>::empty()
        }) + seq!['>']
    } else {
        spec_option_flag(f)
    }
}

/// The usage fragment of one switch or value-taking option, such as
/// `[-f <foo>]`: its bare fragment, enclosed in `[...]` unless required.
pub open spec fn spec_option_usage(f: FieldDescriptor) -> Seq<char>
    recommends
        f.long_name is Some,
{
    if f.optionality is Required {
        spec_option_core(f)
    } else {
        seq!['['] + spec_option_core(f) + seq![']']
    }
}

/// Appends the usage fragment of one positional field to `out`.
pub fn positional_usage(out: &mut String, field: &FieldDescriptor)
    ensures
        final(out)@ == old(out)@ + spec_positional_usage(*field),
{
    if !field.optionality.is_required() {
        push_char(out, '[');
    }
    push_char(out, '<');
    out.append(field.name.as_str());
    if matches!(field.optionality, Optionality::Repeating) {
        out.append("...");
    }
    push_char(out, '>');
    if !field.optionality.is_required() {
        push_char(out, ']');
    }
    proof {
        assert(out@ =~= old(out)@ + spec_positional_usage(*field));
    }
}

/// Appends the usage fragment of one switch or option to `out`; only called
/// on fields that carry a long name.
pub fn option_usage(out: &mut String, field: &FieldDescriptor)
    requires
        wf_field(*field),
        field.long_name is Some,
    ensures
        final(out)@ == old(out)@ + spec_option_usage(*field),
{
    if !field.optionality.is_required() {
        push_char(out, '[');
    }
    match &field.short_name {
        Some(short) => {
            push_char(out, '-');
            push_char(out, *short);
        },
        None => {
            out.append(field.long_name.as_ref().unwrap().as_str());
        },
    }
    if matches!(field.kind, FieldKind::Option) {
        out.append(" <");
        match &field.arg_name_override {
            Some(arg_name) => {
                out.append(arg_name.as_str());
            },
            None => {
                let stripped = strip_leading_dashes(field.long_name.as_ref().unwrap().as_str());
                out.append(stripped.as_str());
            },
        }
        if matches!(field.optionality, Optionality::Repeating) {
            out.append("...");
        }
        push_char(out, '>');
    }
    if !field.optionality.is_required() {
        push_char(out, ']');
    }
    proof {
        assert(out@ =~= old(out)@ + spec_option_usage(*field));
    }
}

/// The usage fragments of every positional field, each preceded by a space,
/// in declaration order.
pub open spec fn spec_positionals_usage(fields: Seq<FieldDescriptor>) -> Seq<char>
    decreases fields.len(),
{
    if fields.len() == 0 {
        Seq::empty()
    } else {
        spec_positionals_usage(fields.drop_last()) + (if fields.last().kind is Positional {
            seq![' '] + spec_positional_usage(fields.last())
        } else {
            Seq::<char>::empty()
        })
    }
}

/// The usage fragments of every long-named field, each preceded by a space,
/// in declaration order.
pub open spec fn spec_options_usage(fields: Seq<FieldDescriptor>) -> Seq<char>
    decreases fields.len(),
{
    if fields.len() == 0 {
        Seq::empty()
    } else {
        spec_options_usage(fields.drop_last()) + (if fields.last().long_name is Some {
            seq![' '] + spec_option_usage(fields.last())
        } else {
            Seq::<char>::empty()
        })
    }
}

/// The trailing usage fragment for a sub-command field: ` <command> [<args>]`,
/// with `<command>` bracketed unless the sub-command is required.
pub open spec fn spec_subcommand_usage(subcommand: Option<FieldDescriptor>) -> Seq<char> {
    match subcommand {
        None => Seq::empty(),
        Some(f) => seq![' '] + (if f.optionality is Required {
            "<command>"@
        } else {
            "[<command>]"@
        }) + " [<args>]"@,
    }
}

/// The whole usage line after the command name: positionals first, then
/// options, then the sub-command slot; no other ordering is permitted.
pub open spec fn spec_usage_line(
    fields: Seq<FieldDescriptor>,
    subcommand: Option<FieldDescriptor>,
) -> Seq<char> {
    spec_positionals_usage(fields) + spec_options_usage(fields) + spec_subcommand_usage(subcommand)
}

/// Appends the usage syntax for the whole field list to `out`: every
/// positional argument, then every switch and option, then the sub-command.
pub fn build_usage_command_line(
    out: &mut String,
    fields: &Vec<FieldDescriptor>,
    subcommand: Option<&FieldDescriptor>,
)
    requires
        wf_fields(fields@),
    ensures
        final(out)@ == old(out)@ + spec_usage_line(
            fields@,
            match subcommand {
                Some(f) => Some(*f),
                None => None,
            },
        ),
{
    let ghost base = out@;
    let mut i: usize = 0;
    while i < fields.len()
        invariant
            wf_fields(fields@),
            0 <= i <= fields@.len(),
            out@ == base + spec_positionals_usage(fields@.take(i as int)),
        decreases fields.len() - i,
    {
        proof {
            assert(fields@.take(i + 1).drop_last() =~= fields@.take(i as int));
            assert(fields@.take(i + 1).last() == fields@[i as int]);
            assert(wf_field(fields@[i as int]));
        }
        if matches!(fields[i].kind, FieldKind::Positional) {
            push_char(out, ' ');
            positional_usage(out, &fields[i]);
            proof {
                assert(out@ =~= base + spec_positionals_usage(fields@.take(i + 1)));
            }
        } else {
            proof {
                assert(out@ =~= base + spec_positionals_usage(fields@.take(i + 1)));
            }
        }
        i = i + 1;
    }
    proof {
        assert(fields@.take(fields@.len() as int) =~= fields@);
    }
    let ghost mid = out@;
    let mut j: usize = 0;
    while j < fields.len()
        invariant
            wf_fields(fields@),
            0 <= j <= fields@.len(),
            mid == base + spec_positionals_usage(fields@),
            out@ == mid + spec_options_usage(fields@.take(j as int)),
        decreases fields.len() - j,
    {
        proof {
            assert(fields@.take(j + 1).drop_last() =~= fields@.take(j as int));
            assert(fields@.take(j + 1).last() == fields@[j as int]);
            assert(wf_field(fields@[j as int]));
        }
        if fields[j].long_name.is_some() {
            push_char(out, ' ');
            option_usage(out, &fields[j]);
            proof {
                assert(out@ =~= mid + spec_options_usage(fields@.take(j + 1)));
            }
        } else {
            proof {
                assert(out@ =~= mid + spec_options_usage(fields@.take(j + 1)));
            }
        }
        j = j + 1;
    }
    proof {
        assert(fields@.take(fields@.len() as int) =~= fields@);
    }
    if let Some(subcommand) = subcommand {
        push_char(out, ' ');
        if subcommand.optionality.is_required() {
            out.append("<command>");
        } else {
            out.append("[<command>]");
        }
        out.append(" [<args>]");
    }
    proof {
        assert(out@ =~= old(out)@ + spec_usage_line(
            fields@,
            match subcommand {
                Some(f) => Some(*f),
                None => None,
            },
        ));
    }
}

} // verus!
