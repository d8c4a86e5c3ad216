use argh_help::descriptor::{CommandDescriptor, FieldDescriptor, FieldKind, Optionality};
use argh_help::text_help::{help, render_help};
use argh_help::validate::Errors;

fn field(
    kind: FieldKind,
    optionality: Optionality,
    long_name: Option<&str>,
    short_name: Option<char>,
    arg_name_override: Option<&str>,
    description: Option<&str>,
    name: &str,
    span: u64,
) -> FieldDescriptor {
    FieldDescriptor {
        kind,
        optionality,
        long_name: long_name.map(|s| s.to_string()),
        short_name,
        arg_name_override: arg_name_override.map(|s| s.to_string()),
        description: description.map(|s| s.to_string()),
        name: name.to_string(),
        span,
    }
}

fn command(description: Option<&str>) -> CommandDescriptor {
    CommandDescriptor {
        description: description.map(|s| s.to_string()),
        examples: vec![],
        notes: vec![],
        error_codes: vec![],
        span: 0,
    }
}

fn render_for(cmd: &CommandDescriptor, fields: &Vec<FieldDescriptor>, name: &str) -> String {
    let mut errors = Errors::new();
    let template = help(&mut errors, cmd, fields, None);
    assert_eq!(errors.diagnostics.len(), 0);
    render_help(&template, &vec![name.to_string()], &vec![])
}

#[test]
fn required_positional_and_repeating_option_scenario() {
    let cmd = command(Some("does a thing"));
    let fields = vec![
        field(
            FieldKind::Positional,
            Optionality::Required,
            None,
            None,
            None,
            Some("the input file"),
            "foo",
            1,
        ),
        field(
            FieldKind::Option,
            Optionality::Repeating,
            Some("--tag"),
            Some('t'),
            Some("tag"),
            Some("a tag"),
            "tag",
            2,
        ),
    ];
    let doc = render_for(&cmd, &fields, "mytool");
    assert!(doc.starts_with("Usage: mytool <foo> [-t <tag...>]\n\n"));
    let expected = "Usage: mytool <foo> [-t <tag...>]\n\ndoes a thing\n\n\
        Positional Arguments:\n  foo               the input file\n\n\
        Options:\n  -t, --tag         a tag\n  --help            display usage information\n  \
        --help-json       display usage information encoded in JSON\n";
    assert_eq!(doc, expected);
    let tag_at = doc.find("-t, --tag").unwrap();
    let help_at = doc.find("--help").unwrap();
    let help_json_at = doc.find("--help-json").unwrap();
    assert!(tag_at < help_at && help_at < help_json_at);
}

#[test]
fn options_listing_always_ends_with_help_entries() {
    let cmd = command(Some("bare"));
    let fields: Vec<FieldDescriptor> = vec![];
    let doc = render_for(&cmd, &fields, "bare");
    assert_eq!(
        doc,
        "Usage: bare\n\nbare\n\nOptions:\n  --help            display usage information\n  \
         --help-json       display usage information encoded in JSON\n"
    );
    assert!(doc.ends_with(
        "Options:\n  --help            display usage information\n  --help-json       \
         display usage information encoded in JSON\n"
    ));
}

#[test]
fn positional_section_absent_without_positionals() {
    let cmd = command(Some("plain"));
    let no_positional = vec![field(
        FieldKind::Switch,
        Optionality::Optional,
        Some("--verbose"),
        Some('v'),
        None,
        Some("more output"),
        "verbose",
        1,
    )];
    let doc = render_for(&cmd, &no_positional, "tool");
    assert!(!doc.contains("Positional Arguments:"));

    let with_positional = vec![field(
        FieldKind::Positional,
        Optionality::Required,
        None,
        None,
        None,
        Some("a file"),
        "file",
        1,
    )];
    let doc2 = render_for(&cmd, &with_positional, "tool");
    assert!(doc2.contains("\n\nPositional Arguments:\n"));
}

#[test]
fn usage_bracketing_follows_optionality() {
    let cmd = command(Some("brackets"));
    let fields = vec![
        field(
            FieldKind::Positional,
            Optionality::Repeating,
            None,
            None,
            None,
            Some("files"),
            "files",
            1,
        ),
        field(
            FieldKind::Option,
            Optionality::Required,
            Some("--mode"),
            None,
            None,
            Some("the mode"),
            "mode",
            2,
        ),
        field(
            FieldKind::Switch,
            Optionality::Optional,
            Some("--verbose"),
            Some('v'),
            None,
            Some("more"),
            "verbose",
            3,
        ),
    ];
    let doc = render_for(&cmd, &fields, "tool");
    assert!(doc.starts_with("Usage: tool [<files...>] --mode <mode> [-v]\n\n"));
}

#[test]
fn two_missing_descriptions_reported_in_one_pass() {
    let cmd = command(Some("lax"));
    let fields = vec![
        field(FieldKind::Switch, Optionality::Optional, Some("--one"), None, None, None, "one", 11),
        field(FieldKind::Switch, Optionality::Optional, Some("--two"), None, None, None, "two", 22),
    ];
    let mut errors = Errors::new();
    let _ = help(&mut errors, &cmd, &fields, None);
    assert_eq!(errors.diagnostics.len(), 2);
    assert_eq!(errors.diagnostics[0].span, 11);
    assert_eq!(errors.diagnostics[1].span, 22);
    let expected_message = "#[derive(FromArgs)] field with no description.\n\
        Add a doc comment or an `#[argh(description = \"...\")]` attribute.";
    assert_eq!(errors.diagnostics[0].message, expected_message);
    assert_eq!(errors.diagnostics[1].message, expected_message);
}

#[test]
fn missing_type_description_reported() {
    let cmd = command(None);
    let fields: Vec<FieldDescriptor> = vec![];
    let mut errors = Errors::new();
    let template = help(&mut errors, &cmd, &fields, None);
    assert_eq!(errors.diagnostics.len(), 1);
    assert!(errors.diagnostics[0].message.contains("type with no description"));
    // Rendering went on with the empty-string placeholder.
    assert!(template.starts_with("Usage: {command_name}\n\n\n\nOptions:"));
}

#[test]
fn rendering_twice_is_byte_identical() {
    let mut cmd = command(Some("steady"));
    cmd.examples = vec!["Run {command_name} twice".to_string()];
    let fields = vec![field(
        FieldKind::Option,
        Optionality::Optional,
        Some("--n"),
        None,
        None,
        Some("count"),
        "n",
        1,
    )];
    let mut errors = Errors::new();
    let t1 = help(&mut errors, &cmd, &fields, None);
    let t2 = help(&mut errors, &cmd, &fields, None);
    assert_eq!(t1, t2);
    let path = vec!["outer".to_string(), "inner".to_string()];
    let r1 = render_help(&t1, &path, &vec![]);
    let r2 = render_help(&t2, &path, &vec![]);
    assert_eq!(r1, r2);
    assert!(r1.contains("  Run outer inner twice"));
}

#[test]
fn examples_and_notes_lines_are_indented() {
    let mut cmd = command(Some("documented"));
    cmd.examples = vec!["first {command_name}\nsecond line".to_string()];
    cmd.notes = vec!["note one".to_string(), "note two".to_string()];
    let fields: Vec<FieldDescriptor> = vec![];
    let doc = render_for(&cmd, &fields, "tool");
    assert!(doc.contains("\n\nExamples:\n  first tool\n  second line\n\n"));
    assert!(doc.contains("\n\nNotes:\n  note one\n  note two\n"));
}

#[test]
fn error_codes_listed_in_declaration_order() {
    let mut cmd = command(Some("coded"));
    cmd.error_codes = vec![
        ("0".to_string(), "success".to_string()),
        ("1".to_string(), "failure".to_string()),
    ];
    let fields: Vec<FieldDescriptor> = vec![];
    let doc = render_for(&cmd, &fields, "tool");
    assert!(doc.ends_with("\n\nError codes:\n  0 success\n  1 failure\n"));
}

#[test]
fn descriptions_are_trimmed() {
    let cmd = command(Some("  does a thing  "));
    let fields: Vec<FieldDescriptor> = vec![];
    let doc = render_for(&cmd, &fields, "tool");
    assert!(doc.contains("\n\ndoes a thing\n\n"));
    assert!(!doc.contains("  does a thing  "));
}

#[test]
fn subcommand_variants_listed_in_reported_order() {
    let cmd = command(Some("routes"));
    let fields: Vec<FieldDescriptor> = vec![];
    let sub = field(
        FieldKind::SubCommand,
        Optionality::Optional,
        None,
        None,
        None,
        Some("what to do"),
        "nested",
        9,
    );
    let mut errors = Errors::new();
    let template = help(&mut errors, &cmd, &fields, Some(&sub));
    assert!(template.contains("Usage: {command_name} [<command>] [<args>]"));
    assert!(template.contains("\n\nCommands:{subcommands}"));
    let variants = vec![
        ("build".to_string(), "builds it".to_string()),
        ("run".to_string(), "runs it".to_string()),
    ];
    let doc = render_help(&template, &vec!["tool".to_string()], &variants);
    assert!(doc.contains(
        "\n\nCommands:\n  build             builds it\n  run               runs it\n"
    ));
}

#[test]
fn required_subcommand_unbracketed() {
    let cmd = command(Some("routes"));
    let fields: Vec<FieldDescriptor> = vec![];
    let sub = field(
        FieldKind::SubCommand,
        Optionality::Required,
        None,
        None,
        None,
        Some("what to do"),
        "nested",
        9,
    );
    let mut errors = Errors::new();
    let template = help(&mut errors, &cmd, &fields, Some(&sub));
    assert!(template.starts_with("Usage: {command_name} <command> [<args>]\n\n"));
}

#[test]
fn arg_name_defaults_to_long_name_without_dashes() {
    let cmd = command(Some("named"));
    let fields = vec![field(
        FieldKind::Option,
        Optionality::Optional,
        Some("--output"),
        None,
        None,
        Some("where to write"),
        "output",
        1,
    )];
    let doc = render_for(&cmd, &fields, "tool");
    assert!(doc.starts_with("Usage: tool [--output <output>]\n\n"));
}
