use argh_help::descriptor::{CommandDescriptor, FieldDescriptor, FieldKind, Optionality};
use argh_help::escape::escape_json;
use argh_help::json_help::{help_json, render_help_json};
use argh_help::validate::Errors;

fn jfield(
    kind: FieldKind,
    optionality: Optionality,
    long_name: Option<&str>,
    short_name: Option<char>,
    arg_name_override: Option<&str>,
    description: Option<&str>,
    name: &str,
    span: u64,
) -> FieldDescriptor {
    FieldDescriptor {
        kind,
        optionality,
        long_name: long_name.map(|s| s.to_string()),
        short_name,
        arg_name_override: arg_name_override.map(|s| s.to_string()),
        description: description.map(|s| s.to_string()),
        name: name.to_string(),
        span,
    }
}

fn jcommand(description: Option<&str>) -> CommandDescriptor {
    CommandDescriptor {
        description: description.map(|s| s.to_string()),
        examples: vec![],
        notes: vec![],
        error_codes: vec![],
        span: 0,
    }
}

fn json_for(cmd: &CommandDescriptor, fields: &Vec<FieldDescriptor>, name: &str) -> String {
    let mut errors = Errors::new();
    let template = help_json(&mut errors, cmd, fields, None);
    assert_eq!(errors.diagnostics.len(), 0);
    render_help_json(&template, &vec![name.to_string()], &vec![])
}

#[test]
fn json_document_has_exact_shape() {
    let cmd = jcommand(Some("does a thing"));
    let fields = vec![
        jfield(
            FieldKind::Positional,
            Optionality::Required,
            None,
            None,
            None,
            Some("the input file"),
            "foo",
            1,
        ),
        jfield(
            FieldKind::Option,
            Optionality::Repeating,
            Some("--tag"),
            Some('t'),
            Some("tag"),
            Some("a tag"),
            "tag",
            2,
        ),
    ];
    let doc = json_for(&cmd, &fields, "mytool");
    let expected = "{\n\
        \"usage\": \"mytool <foo> [-t <tag...>]\",\n\
        \"description\": \"does a thing\",\n\
        \"options\": [{\"short\": \"t\", \"long\": \"--tag\", \"description\": \"a tag\"},\n    \
        {\"short\": \"\", \"long\": \"--help\", \"description\": \"display usage information\"},\n    \
        {\"short\": \"\", \"long\": \"--help-json\", \"description\": \"display usage information encoded in JSON\"}],\n\
        \"positional\": [{\"name\": \"foo\", \"description\": \"the input file\"}],\n\
        \"examples\": \"\",\n\
        \"notes\": \"\",\n\
        \"error_codes\": [],\n\
        \"subcommands\": []\n\
        }\n";
    assert_eq!(doc, expected);
}

#[test]
fn json_document_is_valid_json_and_help_entries_last() {
    let mut cmd = jcommand(Some("checks out"));
    cmd.examples = vec!["try {command_name} --verbose".to_string()];
    cmd.notes = vec!["be gentle".to_string()];
    cmd.error_codes = vec![("2".to_string(), "went wrong".to_string())];
    let fields = vec![
        jfield(
            FieldKind::Switch,
            Optionality::Optional,
            Some("--verbose"),
            Some('v'),
            None,
            Some("more output"),
            "verbose",
            1,
        ),
    ];
    let doc = json_for(&cmd, &fields, "checker");
    let value: serde_json::Value = serde_json::from_str(&doc).unwrap();
    assert_eq!(value["usage"], "checker [-v]");
    assert_eq!(value["description"], "checks out");
    assert_eq!(value["examples"], "try checker --verbose");
    assert_eq!(value["notes"], "be gentle");
    let options = value["options"].as_array().unwrap();
    assert_eq!(options.len(), 3);
    assert_eq!(options[options.len() - 2]["long"], "--help");
    assert_eq!(options[options.len() - 2]["description"], "display usage information");
    assert_eq!(options[options.len() - 1]["long"], "--help-json");
    assert_eq!(
        options[options.len() - 1]["description"],
        "display usage information encoded in JSON"
    );
}

#[test]
fn escape_json_rewrites_only_newline_and_quote() {
    assert_eq!(escape_json("say \"hi\"\nbye"), "say \\\"hi\\\"\\nbye");
    assert_eq!(escape_json("untouched"), "untouched");
    assert_eq!(escape_json(""), "");
    // Backslashes pass through unescaped: the known narrow behaviour.
    assert_eq!(escape_json("a\\b"), "a\\b");
}

#[test]
fn escaped_description_survives_a_json_round_trip() {
    let cmd = jcommand(Some("says \"hello\"\non two lines"));
    let fields: Vec<FieldDescriptor> = vec![];
    let doc = json_for(&cmd, &fields, "greeter");
    let value: serde_json::Value = serde_json::from_str(&doc).unwrap();
    assert_eq!(value["description"], "says \"hello\"\non two lines");
}

#[test]
fn json_subcommands_array_in_reported_order() {
    let cmd = jcommand(Some("routes"));
    let fields: Vec<FieldDescriptor> = vec![];
    let sub = jfield(
        FieldKind::SubCommand,
        Optionality::Optional,
        None,
        None,
        None,
        Some("what to do"),
        "nested",
        9,
    );
    let mut errors = Errors::new();
    let template = help_json(&mut errors, &cmd, &fields, Some(&sub));
    let variants = vec![
        ("build".to_string(), "builds it".to_string()),
        ("run".to_string(), "runs it".to_string()),
    ];
    let doc = render_help_json(&template, &vec!["tool".to_string()], &variants);
    assert!(doc.contains(
        "\"subcommands\": [{\"name\": \"build\", \"description\": \"builds it\"},\n    \
         {\"name\": \"run\", \"description\": \"runs it\"}]\n"
    ));
    let value: serde_json::Value = serde_json::from_str(&doc).unwrap();
    let subs = value["subcommands"].as_array().unwrap();
    assert_eq!(subs.len(), 2);
    assert_eq!(subs[0]["name"], "build");
    assert_eq!(subs[1]["name"], "run");
}

#[test]
fn error_code_text_is_escaped_once() {
    let mut cmd = jcommand(Some("coded"));
    cmd.error_codes = vec![("7".to_string(), "a \"q\" code".to_string())];
    let fields: Vec<FieldDescriptor> = vec![];
    let doc = json_for(&cmd, &fields, "tool");
    // The text passes through the escaping step exactly once, when the
    // array is serialized, so a quote comes out as `\"` and the document
    // stays valid JSON.
    assert!(doc.contains("{\"name\": \"7\", \"description\": \"a \\\"q\\\" code\"}"));
    let value: serde_json::Value = serde_json::from_str(&doc).unwrap();
    assert_eq!(value["error_codes"][0]["name"], "7");
    assert_eq!(value["error_codes"][0]["description"], "a \"q\" code");
}

#[test]
fn json_missing_descriptions_collected_not_fatal() {
    let cmd = jcommand(None);
    let fields = vec![
        jfield(FieldKind::Positional, Optionality::Required, None, None, None, None, "x", 5),
        jfield(FieldKind::Switch, Optionality::Optional, Some("--y"), None, None, None, "y", 6),
    ];
    let mut errors = Errors::new();
    let template = help_json(&mut errors, &cmd, &fields, None);
    // One diagnostic per undocumented entity, positional first, then the
    // option, then the command type itself.
    assert_eq!(errors.diagnostics.len(), 3);
    assert_eq!(errors.diagnostics[0].span, 5);
    assert_eq!(errors.diagnostics[1].span, 6);
    assert_eq!(errors.diagnostics[2].span, 0);
    let doc = render_help_json(&template, &vec!["tool".to_string()], &vec![]);
    let value: serde_json::Value = serde_json::from_str(&doc).unwrap();
    assert_eq!(value["description"], "");
}
