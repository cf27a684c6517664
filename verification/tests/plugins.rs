use cryogen::plugins::gfm::GithubMarkdownPlugin;
use cryogen::plugins::json::JsonPlugin;
use cryogen::plugins::markdown::MarkdownPlugin;
use cryogen::plugins::primitives::{BooleanPlugin, IntPlugin, StringPlugin};
use cryogen::plugins::yaml::YamlPlugin;
use cryogen::{CompileVariablePlugin, Error, Interpretation, PluginArgs, Source, StreamRead};

/// A reader that yields nothing; it only pins the source's type
/// parameter in tests that use literal sources.
struct NoReader;

impl StreamRead for NoReader {
    fn read_bytes(&mut self, _buf: &mut Vec<u8>) -> Result<usize, String> {
        Ok(0)
    }

    fn read_all(&mut self) -> Result<String, String> {
        Ok(String::new())
    }
}

fn raw(s: &str) -> Source<'_, NoReader> {
    Source::Raw(s, 0)
}

#[test]
fn test_string_plugin_returns_the_literal() {
    let p = StringPlugin::from_args(&PluginArgs::new());
    assert_eq!(p.read(raw("plain value")).unwrap(), "plain value");
}

#[test]
fn test_int_plugin_parses_decimal_tokens() {
    let p = IntPlugin::from_args(&PluginArgs::new());
    assert_eq!(p.read(raw("42")).unwrap(), 42);
    assert_eq!(p.read(raw("-17")).unwrap(), -17);
    assert_eq!(p.read(raw("+17")).unwrap(), 17);
    assert_eq!(p.read(raw("0007")).unwrap(), 7);
    assert_eq!(p.read(raw("0")).unwrap(), 0);
}

#[test]
fn test_int_plugin_handles_the_isize_bounds() {
    let p = IntPlugin;
    assert_eq!(p.read(raw("9223372036854775807")).unwrap(), isize::MAX);
    assert_eq!(p.read(raw("-9223372036854775808")).unwrap(), isize::MIN);
    assert!(p.read(raw("9223372036854775808")).is_err());
    assert!(p.read(raw("-9223372036854775809")).is_err());
    assert!(p.read(raw("99999999999999999999999")).is_err());
}

#[test]
fn test_int_plugin_rejects_what_std_rejects() {
    let p = IntPlugin;
    for token in ["", "-", "+", "x", "1x", " 1", "1 ", "--1", "1.5"] {
        assert!(p.read(raw(token)).is_err(), "token {:?}", token);
        assert!(token.parse::<isize>().is_err(), "token {:?}", token);
    }
    for token in ["42", "-17", "+17", "0007"] {
        assert_eq!(p.read(raw(token)).unwrap(), token.parse::<isize>().unwrap());
    }
}

#[test]
fn test_bool_plugin_accepts_exactly_true_and_false() {
    let p = BooleanPlugin::from_args(&PluginArgs::new());
    assert_eq!(p.read(raw("true")).unwrap(), true);
    assert_eq!(p.read(raw("false")).unwrap(), false);
    for token in ["True", "FALSE", "1", "0", "", "yes"] {
        assert!(matches!(p.read(raw(token)), Err(Error::DecodeError(_))));
    }
}

#[test]
fn test_json_plugin_decodes_documents() {
    let p = JsonPlugin::from_args(&PluginArgs::new());
    let v = p.read(raw("{\"a\": [1, 2], \"b\": \"x\"}")).unwrap();
    assert_eq!(v["a"][1], serde_json::Value::from(2));
    assert_eq!(v["b"], serde_json::Value::from("x"));
    assert!(matches!(
        p.read(raw("{not json")),
        Err(Error::DecodeError(_))
    ));
}

#[test]
fn test_yaml_plugin_decodes_documents() {
    let p = YamlPlugin::from_args(&PluginArgs::new());
    let v = p.read(raw("a: 1\nb: two")).unwrap();
    let expected: serde_yaml::Value = serde_yaml::from_str("a: 1\nb: two").unwrap();
    assert_eq!(v, expected);
    assert!(matches!(
        p.read(raw("{unclosed")),
        Err(Error::DecodeError(_))
    ));
}

#[test]
fn test_plugin_descriptors() {
    assert_eq!(StringPlugin::plugin_name(), "string");
    assert_eq!(IntPlugin::arg_full_name(), "int");
    assert_eq!(BooleanPlugin::arg_interpretation(), Interpretation::Raw);
    assert_eq!(JsonPlugin::arg_interpretation(), Interpretation::Path);
    assert_eq!(YamlPlugin::arg_interpretation(), Interpretation::Path);
    assert_eq!(MarkdownPlugin::arg_interpretation(), Interpretation::Path);
    assert_eq!(GithubMarkdownPlugin::arg_interpretation(), Interpretation::Path);
    assert!(StringPlugin::additional_args().is_empty());
    let md_args = MarkdownPlugin::additional_args();
    assert_eq!(md_args.len(), 3);
    assert_eq!(md_args[0].name, "markdown-yaml-metadata");
    let gfm_args = GithubMarkdownPlugin::additional_args();
    assert_eq!(gfm_args.len(), 11);
    assert_eq!(gfm_args[0].name, "gfm-yaml-metadata");
}

#[test]
fn test_markdown_plugin_renders_html() {
    let mut args = PluginArgs::new();
    args.set("markdown-yaml-metadata");
    let p = MarkdownPlugin::from_args(&args);
    assert!(p.yaml_metadata);
    assert!(!p.footnotes);
    let doc = p.read(raw("---\ntitle: A\n---\n# Hi")).unwrap();
    assert!(doc.metadata().is_some());
    assert!(doc.html().contains("<h1>"));
    assert!(doc.html().contains("Hi"));
}

#[test]
fn test_markdown_plugin_without_metadata_scan() {
    let p = MarkdownPlugin {
        yaml_metadata: false,
        footnotes: false,
        tables: false,
    };
    let doc = p.read(raw("# Hi")).unwrap();
    assert!(doc.metadata().is_none());
    assert!(doc.html().contains("<h1>"));
}

#[test]
fn test_markdown_plugin_reports_bad_metadata() {
    let p = MarkdownPlugin {
        yaml_metadata: true,
        footnotes: false,
        tables: false,
    };
    assert!(matches!(
        p.read(raw("---\n{unclosed\n---\nbody")),
        Err(Error::DecodeError(_))
    ));
}

#[test]
fn test_gfm_plugin_renders_html() {
    let mut args = PluginArgs::new();
    args.set("gfm-strikethrough");
    let p = GithubMarkdownPlugin::from_args(&args);
    assert!(p.strikethrough);
    assert!(!p.tables);
    let doc = p.read(raw("~~gone~~")).unwrap();
    assert!(doc.html().contains("<del>"));
    let plain = GithubMarkdownPlugin::from_args(&PluginArgs::new());
    let doc2 = plain.read(raw("~~gone~~")).unwrap();
    assert!(!doc2.html().contains("<del>"));
}

#[test]
fn test_gfm_plugin_scans_metadata() {
    let mut args = PluginArgs::new();
    args.set("gfm-yaml-metadata");
    let p = GithubMarkdownPlugin::from_args(&args);
    let doc = p.read(raw("---\ntitle: A\n---\n# Hello")).unwrap();
    assert!(doc.metadata().is_some());
    assert!(doc.html().contains("<h1>"));
    assert!(!doc.html().contains("title:"));
}
