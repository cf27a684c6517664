use cryogen::plugins::primitives::{IntPlugin, StringPlugin};
use cryogen::plugins::yaml::YamlPlugin;
use cryogen::{
    exec_plugin, insert_read_value, Command, CompileVariablePlugin, Context, ContextValue, Error,
    Interpretation, Source, StreamRead, VarMapping,
};

/// A stream over an in-memory byte buffer, standing in for an open file.
struct FakeFile {
    data: Vec<u8>,
    pos: usize,
}

impl FakeFile {
    fn new(data: &[u8]) -> FakeFile {
        FakeFile {
            data: data.to_vec(),
            pos: 0,
        }
    }
}

impl StreamRead for FakeFile {
    fn read_bytes(&mut self, buf: &mut Vec<u8>) -> Result<usize, String> {
        let n = std::cmp::min(buf.len(), self.data.len() - self.pos);
        for i in 0..n {
            buf[i] = self.data[self.pos + i];
        }
        self.pos += n;
        Ok(n)
    }

    fn read_all(&mut self) -> Result<String, String> {
        let rest = &self.data[self.pos..];
        self.pos = self.data.len();
        String::from_utf8(rest.to_vec()).map_err(|e| e.to_string())
    }
}

#[test]
fn test_exec_plugin_binds_every_mapping() {
    let mut ctx = Context::new();
    let tokens = vec!["greeting:Hi".to_string(), "name:World".to_string()];
    exec_plugin::<StringPlugin, FakeFile>(&StringPlugin, &tokens, &mut ctx).unwrap();
    assert_eq!(ctx.len(), 2);
    match ctx.get("greeting") {
        Some(ContextValue::Text(s)) => assert_eq!(s, "Hi"),
        _ => panic!("greeting not bound to text"),
    }
    match ctx.get("name") {
        Some(ContextValue::Text(s)) => assert_eq!(s, "World"),
        _ => panic!("name not bound to text"),
    }
}

#[test]
fn test_exec_plugin_last_write_wins() {
    let mut ctx = Context::new();
    let tokens = vec!["n:1".to_string(), "n:2".to_string()];
    exec_plugin::<IntPlugin, FakeFile>(&IntPlugin, &tokens, &mut ctx).unwrap();
    assert_eq!(ctx.len(), 1);
    match ctx.get("n") {
        Some(ContextValue::Int(v)) => assert_eq!(*v, 2),
        _ => panic!("n not bound to an integer"),
    }
}

#[test]
fn test_exec_plugin_surfaces_malformed_mappings() {
    let mut ctx = Context::new();
    let tokens = vec!["ok:1".to_string(), "broken".to_string()];
    let r = exec_plugin::<IntPlugin, FakeFile>(&IntPlugin, &tokens, &mut ctx);
    assert!(matches!(r, Err(Error::MalformedMapping(_))));
}

#[test]
fn test_exec_plugin_surfaces_read_failures() {
    let mut ctx = Context::new();
    let tokens = vec!["n:not-a-number".to_string()];
    let r = exec_plugin::<IntPlugin, FakeFile>(&IntPlugin, &tokens, &mut ctx);
    assert!(matches!(r, Err(Error::DecodeError(_))));
    assert!(ctx.get("n").is_none());
}

#[test]
fn test_path_plugin_end_to_end() {
    // A path-interpreted plugin: the host parses the mapping, opens the
    // file behind the value, and hands the stream to the library.
    assert!(matches!(
        YamlPlugin::arg_interpretation(),
        Interpretation::Path
    ));
    let mapping = VarMapping::from_str("greeting:/tmp/x.txt").unwrap();
    assert_eq!(mapping.file_path(), "/tmp/x.txt");

    let file = FakeFile::new(b"Hi");
    let mut ctx = Context::new();
    insert_read_value(
        &YamlPlugin,
        mapping.var_name(),
        Source::File(file),
        &mut ctx,
    )
    .unwrap();
    match ctx.get("greeting") {
        Some(ContextValue::Yaml(v)) => {
            assert_eq!(v, &serde_yaml::Value::String("Hi".to_string()))
        }
        _ => panic!("greeting not bound to a YAML value"),
    }
}

#[test]
fn test_insert_read_value_leaves_context_on_failure() {
    let mut ctx = Context::new();
    let bad = FakeFile::new(b"{unclosed");
    let r = insert_read_value(&YamlPlugin, "v", Source::File(bad), &mut ctx);
    assert!(r.is_err());
    assert_eq!(ctx.len(), 0);
}

#[test]
fn test_command_name() {
    assert_eq!(Command::command_name(), "single");
}

#[test]
fn test_context_get_missing_name() {
    let ctx = Context::new();
    assert!(ctx.get("absent").is_none());
}

#[test]
fn test_context_insert_and_overwrite() {
    let mut ctx = Context::new();
    ctx.insert("k", ContextValue::Bool(true));
    ctx.insert("k", ContextValue::Bool(false));
    assert_eq!(ctx.len(), 1);
    match ctx.get("k") {
        Some(ContextValue::Bool(b)) => assert!(!*b),
        _ => panic!("k not bound to a boolean"),
    }
}
