use vstd::prelude::*;

use crate::descriptor::{CommandDescriptor, FieldDescriptor};
use crate::text::{
    lemma_substitute_absent, lemma_substitute_prefix_token, lemma_token_absent, spec_contains,
    spec_join_space, spec_substitute,
};
use crate::text_help::{
    spec_error_code_lines, spec_has_positional, spec_help_diags, spec_help_entry,
    spec_help_json_entry, spec_help_template, spec_lits_section, spec_option_diags,
    spec_option_entries, spec_options_listing, spec_positional_entries, spec_render_help,
};
use crate::json_help::{
    spec_help_json_tuple, spec_help_tuple, spec_json_declared_tuples, spec_json_option_tuples,
    spec_json_subcommand_elements, spec_render_help_json, JsonHelpTemplate,
};
use crate::usage::{
    spec_arg_placeholder, spec_option_core, spec_option_flag, spec_option_usage,
    spec_positional_core, spec_positional_usage, spec_usage_line,
};
use crate::validate::{spec_described, spec_missing_description_message};

verus! {

/// Everything of the text document that comes before the positional
/// section's place.
pub open spec fn spec_before_positionals(
    cmd: CommandDescriptor,
    fields: Seq<FieldDescriptor>,
    subcommand: Option<FieldDescriptor>,
) -> Seq<char> {
    "Usage: {command_name}"@ + spec_usage_line(fields, subcommand) + "\n\n"@ + spec_described(
        cmd.description,
    )
}

/// Everything of the text document that comes after the options listing.
pub open spec fn spec_after_options(
    cmd: CommandDescriptor,
    subcommand: Option<FieldDescriptor>,
) -> Seq<char> {
    (if subcommand is Some {
        "\n\nCommands:{subcommands}"@
    } else {
        Seq::<char>::empty()
    }) + spec_lits_section("Examples:"@, cmd.examples@) + spec_lits_section(
        "Notes:"@,
        cmd.notes@,
    ) + (if cmd.error_codes@.len() > 0 {
        "\n\nError codes:"@ + spec_error_code_lines(cmd.error_codes@)
    } else {
        Seq::<char>::empty()
    }) + seq!['\n']
}

/// With at least one positional field the text document carries the
/// `Positional Arguments:` heading; with none, the document is exactly the
/// concatenation of the remaining sections — no empty heading is emitted.
pub proof fn lemma_positional_arguments_section(
    cmd: CommandDescriptor,
    fields: Seq<FieldDescriptor>,
    subcommand: Option<FieldDescriptor>,
)
    ensures
        spec_has_positional(fields) ==> spec_contains(
            spec_help_template(cmd, fields, subcommand),
            "Positional Arguments:"@,
        ),
        !spec_has_positional(fields) ==> spec_help_template(cmd, fields, subcommand)
            == spec_before_positionals(cmd, fields, subcommand) + "\n\nOptions:"@
            + spec_options_listing(fields) + spec_after_options(cmd, subcommand),
{
    let t = spec_help_template(cmd, fields, subcommand);
    let pre = spec_before_positionals(cmd, fields, subcommand);
    if spec_has_positional(fields) {
        let sect = "\n\nPositional Arguments:"@ + spec_positional_entries(fields);
        let rest = "\n\nOptions:"@ + spec_options_listing(fields) + spec_after_options(
            cmd,
            subcommand,
        );
        assert(t =~= pre + sect + rest);
        reveal_strlit("\n\nPositional Arguments:");
        reveal_strlit("Positional Arguments:");
        let h = "Positional Arguments:"@;
        let k: int = pre.len() as int + 2;
        assert((pre + sect + rest).subrange(k, k + h.len() as int) =~= h);
        assert(spec_contains(t, h));
    } else {
        assert(t =~= pre + "\n\nOptions:"@ + spec_options_listing(fields) + spec_after_options(
            cmd,
            subcommand,
        ));
    }
}

/// The options listing of the text document always closes with the two
/// synthetic entries, `--help` then `--help-json`, whatever the schema
/// declares — also when it declares no option at all.
pub proof fn lemma_options_listing_synthetic_last(
    cmd: CommandDescriptor,
    fields: Seq<FieldDescriptor>,
    subcommand: Option<FieldDescriptor>,
)
    ensures
        spec_help_template(cmd, fields, subcommand) == spec_before_positionals(
            cmd,
            fields,
            subcommand,
        ) + (if spec_has_positional(fields) {
            "\n\nPositional Arguments:"@ + spec_positional_entries(fields)
        } else {
            Seq::<char>::empty()
        }) + "\n\nOptions:"@ + spec_option_entries(fields) + spec_help_entry()
            + spec_help_json_entry() + spec_after_options(cmd, subcommand),
{
    assert(spec_help_template(cmd, fields, subcommand) =~= spec_before_positionals(
        cmd,
        fields,
        subcommand,
    ) + (if spec_has_positional(fields) {
        "\n\nPositional Arguments:"@ + spec_positional_entries(fields)
    } else {
        Seq::<char>::empty()
    }) + "\n\nOptions:"@ + spec_option_entries(fields) + spec_help_entry()
        + spec_help_json_entry() + spec_after_options(cmd, subcommand));
}

/// The JSON options array always ends with the two synthetic entries,
/// `--help` then `--help-json`, whatever the schema declares.
pub proof fn lemma_json_options_synthetic_last(fields: Seq<FieldDescriptor>)
    ensures
        spec_json_option_tuples(fields).len() == spec_json_declared_tuples(fields).len() + 2,
        spec_json_option_tuples(fields)[spec_json_option_tuples(fields).len() - 2]
            == spec_help_tuple(),
        spec_json_option_tuples(fields)[spec_json_option_tuples(fields).len() - 1]
            == spec_help_json_tuple(),
{
}

/// Usage-line bracketing for a positional field: the fragment is enclosed
/// in `[...]` exactly when the field is not required, and the placeholder
/// ends in `...>` exactly when the field repeats.
pub proof fn lemma_positional_usage_bracketing(f: FieldDescriptor)
    ensures
        f.optionality is Required ==> spec_positional_usage(f) == spec_positional_core(f),
        !(f.optionality is Required) ==> spec_positional_usage(f) == seq!['[']
            + spec_positional_core(f) + seq![']'],
        (!(f.optionality is Required)) <==> spec_positional_usage(f).first() == '[',
        (!(f.optionality is Required)) <==> spec_positional_usage(f).last() == ']',
        f.optionality is Repeating ==> spec_positional_core(f) == seq!['<'] + f.name@ + "..."@
            + seq!['>'],
        !(f.optionality is Repeating) ==> spec_positional_core(f) == seq!['<'] + f.name@
            + seq!['>'],
{
    assert(spec_positional_core(f).first() == '<');
    assert(spec_positional_core(f).last() == '>');
    if !(f.optionality is Repeating) {
        assert(spec_positional_core(f) =~= seq!['<'] + f.name@ + seq!['>']);
    }
    if !(f.optionality is Required) {
        assert(spec_positional_usage(f).first() == '[');
        assert(spec_positional_usage(f).last() == ']');
    }
}

/// Usage-line bracketing for a switch or option: the fragment is enclosed
/// in `[...]` exactly when the field is not required, and a value-taking
/// option's placeholder ends in `...>` exactly when the field repeats.
pub proof fn lemma_option_usage_bracketing(f: FieldDescriptor)
    requires
        f.long_name is Some,
    ensures
        f.optionality is Required ==> spec_option_usage(f) == spec_option_core(f),
        !(f.optionality is Required) ==> spec_option_usage(f) == seq!['['] + spec_option_core(f)
            + seq![']'],
        f.kind is Option && f.optionality is Repeating ==> spec_option_core(f)
            == spec_option_flag(f) + " <"@ + spec_arg_placeholder(f) + "..."@ + seq!['>'],
        f.kind is Option && !(f.optionality is Repeating) ==> spec_option_core(f)
            == spec_option_flag(f) + " <"@ + spec_arg_placeholder(f) + seq!['>'],
        !(f.kind is Option) ==> spec_option_core(f) == spec_option_flag(f),
{
    if f.kind is Option && !(f.optionality is Repeating) {
        assert(spec_option_core(f) =~= spec_option_flag(f) + " <"@ + spec_arg_placeholder(f)
            + seq!['>']);
    }
}

/// A missing description on a long-named field is recorded in the option
/// diagnostics, whichever position the field holds.
pub proof fn lemma_option_diag_recorded(fields: Seq<FieldDescriptor>, i: int)
    requires
        0 <= i < fields.len(),
        fields[i].long_name is Some,
        fields[i].description is None,
    ensures
        spec_option_diags(fields).contains(
            (fields[i].span, spec_missing_description_message("field"@)),
        ),
    decreases fields.len(),
{
    let d = (fields[i].span, spec_missing_description_message("field"@));
    if i == fields.len() - 1 {
        let prefix = spec_option_diags(fields.drop_last());
        assert(spec_option_diags(fields)[prefix.len() as int] == d);
    } else {
        lemma_option_diag_recorded(fields.drop_last(), i);
        let prefix = spec_option_diags(fields.drop_last());
        let k = choose|k: int| 0 <= k < prefix.len() && prefix[k] == d;
        assert(spec_option_diags(fields)[k] == d);
    }
}

/// Two different long-named fields, both without a description, yield two
/// distinct diagnostics in one validation pass — the pass never stops at
/// the first failure.
pub proof fn lemma_two_missing_descriptions(
    cmd: CommandDescriptor,
    fields: Seq<FieldDescriptor>,
    i: int,
    j: int,
)
    requires
        0 <= i < j < fields.len(),
        fields[i].long_name is Some,
        fields[i].description is None,
        fields[j].long_name is Some,
        fields[j].description is None,
        fields[i].span != fields[j].span,
    ensures
        spec_help_diags(cmd, fields).contains(
            (fields[i].span, spec_missing_description_message("field"@)),
        ),
        spec_help_diags(cmd, fields).contains(
            (fields[j].span, spec_missing_description_message("field"@)),
        ),
        spec_help_diags(cmd, fields).len() >= 2,
{
    let di = (fields[i].span, spec_missing_description_message("field"@));
    let dj = (fields[j].span, spec_missing_description_message("field"@));
    let opts = spec_option_diags(fields);
    lemma_option_diag_recorded(fields, i);
    lemma_option_diag_recorded(fields, j);
    let all = spec_help_diags(cmd, fields);
    let ki = choose|k: int| 0 <= k < opts.len() && opts[k] == di;
    let kj = choose|k: int| 0 <= k < opts.len() && opts[k] == dj;
    let shift = all.len() - opts.len();
    assert(all[ki + shift] == di);
    assert(all[kj + shift] == dj);
    assert(ki != kj);
}

/// Rendering is idempotent: the finished text document is a function of
/// the template and the runtime inputs alone, so two renders of the same
/// descriptor with the same command path and variants are byte-identical.
pub proof fn lemma_render_help_idempotent(
    template: Seq<char>,
    command_path: Seq<Seq<char>>,
    subcommands: Seq<(String, String)>,
    first: Seq<char>,
    second: Seq<char>,
)
    requires
        first == spec_render_help(template, command_path, subcommands),
        second == spec_render_help(template, command_path, subcommands),
    ensures
        first == second,
{
}

/// The minimal case of the JSON document: when the serialized sections
/// carry no brace character, resolving the two deferred slots touches
/// nothing else — the command name replaces exactly the leading token of
/// the usage pattern, the examples and notes are inserted verbatim, and
/// every section stands verbatim between the document's fixed punctuation.
/// (The full grammar judgement that such a document parses as one JSON
/// object is not stated here; the renderers fix the exact text instead.)
pub proof fn lemma_render_help_json_brace_free(
    t: JsonHelpTemplate,
    command_path: Seq<Seq<char>>,
    subcommands: Seq<(String, String)>,
    usage_rest: Seq<char>,
)
    requires
        t.usage_pattern@ == "{command_name}"@ + usage_rest,
        forall|i: int| 0 <= i < usage_rest.len() ==> usage_rest[i] != '{',
        forall|i: int| 0 <= i < t.examples_pattern@.len() ==> t.examples_pattern@[i] != '{',
        forall|i: int| 0 <= i < t.notes_pattern@.len() ==> t.notes_pattern@[i] != '{',
    ensures
        spec_render_help_json(t, command_path, subcommands) == "{\n\"usage\": \""@
            + spec_join_space(command_path) + usage_rest + "\",\n\"description\": \""@
            + t.description@ + "\",\n\"options\": ["@ + t.options_json@
            + "],\n\"positional\": ["@ + t.positional_json@ + "],\n\"examples\": \""@
            + t.examples_pattern@ + "\",\n\"notes\": \""@ + t.notes_pattern@
            + "\",\n\"error_codes\": ["@ + t.error_codes_json@ + "],\n\"subcommands\": ["@
            + spec_json_subcommand_elements(subcommands) + "]\n}\n"@,
{
    reveal_strlit("{command_name}");
    let token = "{command_name}"@;
    let name = spec_join_space(command_path);
    lemma_substitute_prefix_token(token, usage_rest, name);
    lemma_token_absent(usage_rest, token);
    lemma_substitute_absent(usage_rest, token, name);
    lemma_token_absent(t.examples_pattern@, token);
    lemma_substitute_absent(t.examples_pattern@, token, name);
    lemma_token_absent(t.notes_pattern@, token);
    lemma_substitute_absent(t.notes_pattern@, token, name);
    assert(spec_render_help_json(t, command_path, subcommands) =~= "{\n\"usage\": \""@ + name
        + usage_rest + "\",\n\"description\": \""@ + t.description@ + "\",\n\"options\": ["@
        + t.options_json@ + "],\n\"positional\": ["@ + t.positional_json@
        + "],\n\"examples\": \""@ + t.examples_pattern@ + "\",\n\"notes\": \""@
        + t.notes_pattern@ + "\",\n\"error_codes\": ["@ + t.error_codes_json@
        + "],\n\"subcommands\": ["@ + spec_json_subcommand_elements(subcommands) + "]\n}\n"@);
}

/// The JSON render is idempotent in the same way as the text render.
pub proof fn lemma_render_help_json_idempotent(
    template: JsonHelpTemplate,
    command_path: Seq<Seq<char>>,
    subcommands: Seq<(String, String)>,
    first: Seq<char>,
    second: Seq<char>,
)
    requires
        first == spec_render_help_json(template, command_path, subcommands),
        second == spec_render_help_json(template, command_path, subcommands),
    ensures
        first == second,
{
}

} // verus!
