//! Plugin that binds a template variable to a Markdown document,
//! rendered to HTML, with an optional leading YAML metadata block.

use vstd::prelude::*;
use vstd::slice::slice_subrange;
use vstd::utf8::encode_utf8;

use crate::context::{ContextValue, RenderedMarkdown};
use crate::decode::is_yaml;
use crate::error::Error;
use crate::header::{lemma_scan_offset_in_bounds, read_header, scan_header, HeaderScan};
use crate::plugin::{ArgSpec, CompileVariablePlugin, PluginArgs};
use crate::source::{Interpretation, Source, StreamRead};

verus! {

/// The HTML that the CommonMark renderer produces for this text with
/// the given extensions enabled. A function of the text and the
/// extension switches alone.
pub uninterp spec fn md_html(bytes: Seq<u8>, footnotes: bool, tables: bool) -> Seq<char>;

/// Relies on pulldown_cmark's Parser::new_ext and html::push_html:
/// rendering CommonMark to HTML depends on the input text and the
/// enabled extensions alone.
#[verifier::external_body]
fn render_markdown(bytes: &[u8], footnotes: bool, tables: bool) -> (r: String)
    ensures
        r@ == md_html(bytes@, footnotes, tables),
{
    let text = String::from_utf8_lossy(bytes);
    let mut opts = pulldown_cmark::Options::empty();
    if footnotes {
        opts.insert(pulldown_cmark::Options::ENABLE_FOOTNOTES);
    }
    if tables {
        opts.insert(pulldown_cmark::Options::ENABLE_TABLES);
    }
    let mut out = String::new();
    pulldown_cmark::html::push_html(&mut out, pulldown_cmark::Parser::new_ext(&text, opts));
    out
}

/// The document body a metadata-scanning plugin renders: what is left
/// of the buffer once the scanner's offset is consumed. Without
/// scanning, the whole buffer.
pub open spec fn doc_body(b: Seq<u8>, scan: bool) -> Seq<u8> {
    if !scan {
        b
    } else {
        match scan_header(b) {
            HeaderScan::Absent => b,
            HeaderScan::Empty { offset } => b.skip(offset),
            HeaderScan::Present { block, offset } => b.skip(offset),
        }
    }
}

/// Whether a metadata-scanning plugin finds metadata in this buffer.
pub open spec fn doc_has_metadata(b: Seq<u8>, scan: bool) -> bool {
    scan && scan_header(b) is Present
}

/// Whether reading a document with these switches succeeds: only a
/// complete metadata block of malformed YAML fails.
pub open spec fn doc_read_ok(b: Seq<u8>, scan: bool) -> bool {
    scan ==> (scan_header(b) matches HeaderScan::Present { block, offset } ==> is_yaml(block))
}

/// Binds a variable to a Markdown file, rendered to HTML. With the
/// metadata switch on, a leading YAML block is decoded and carried
/// alongside the rendered body.
pub struct MarkdownPlugin {
    pub yaml_metadata: bool,
    pub footnotes: bool,
    pub tables: bool,
}

impl CompileVariablePlugin for MarkdownPlugin {
    type RenderValue = RenderedMarkdown;

    open spec fn read_ok(&self, content: Seq<char>) -> bool {
        doc_read_ok(encode_utf8(content), self.yaml_metadata)
    }

    open spec fn read_val(&self, content: Seq<char>, v: RenderedMarkdown) -> bool {
        let b = encode_utf8(content);
        &&& v.html_view() == md_html(doc_body(b, self.yaml_metadata), self.footnotes, self.tables)
        &&& v.has_metadata() == doc_has_metadata(b, self.yaml_metadata)
    }

    open spec fn value_spec(v: RenderedMarkdown) -> ContextValue {
        ContextValue::Document(v)
    }

    open spec fn interp_spec() -> Interpretation {
        Interpretation::Path
    }

    fn plugin_name() -> (r: &'static str)
        ensures
            r@ == "markdown"@,
    {
        "markdown"
    }

    fn arg_full_name() -> (r: &'static str)
        ensures
            r@ == "markdown"@,
    {
        "markdown"
    }

    fn arg_help() -> (r: &'static str) {
        "Assign variable to contents of a Markdown file"
    }

    fn arg_interpretation() -> (r: Interpretation) {
        Interpretation::Path
    }

    fn additional_args() -> (r: Vec<ArgSpec>)
        ensures
            r@.len() == 3,
            r@[0].name@ == "markdown-yaml-metadata"@,
            r@[1].name@ == "markdown-footnotes"@,
            r@[2].name@ == "markdown-tables"@,
    {
        let mut args: Vec<ArgSpec> = Vec::new();
        args.push(ArgSpec::new("markdown-yaml-metadata", "Enable YAML metadata block"));
        args.push(ArgSpec::new("markdown-footnotes", "Enable footnotes"));
        args.push(ArgSpec::new("markdown-tables", "Enable tables"));
        args
    }

    fn from_args(args: &PluginArgs) -> (r: MarkdownPlugin)
        ensures
            r.yaml_metadata == args.has_flag("markdown-yaml-metadata"@),
            r.footnotes == args.has_flag("markdown-footnotes"@),
            r.tables == args.has_flag("markdown-tables"@),
    {
        MarkdownPlugin {
            yaml_metadata: args.is_present("markdown-yaml-metadata"),
            footnotes: args.is_present("markdown-footnotes"),
            tables: args.is_present("markdown-tables"),
        }
    }

    fn read<R: StreamRead>(&self, src: Source<R>) -> (r: Result<RenderedMarkdown, Error>) {
        let text = match src.consume() {
            Ok(text) => text,
            Err(e) => {
                return Err(e);
            },
        };
        let bytes: Vec<u8> = text.as_str().as_bytes_vec();
        let header: (Option<serde_yaml::Value>, usize) = if self.yaml_metadata {
            match read_header(bytes.as_slice()) {
                Ok(p) => p,
                Err(e) => {
                    return Err(e);
                },
            }
        } else {
            (None, 0)
        };
        let (metadata, offset) = header;
        proof {
            lemma_scan_offset_in_bounds(bytes@);
        }
        let body: &[u8] = slice_subrange(bytes.as_slice(), offset, bytes.len());
        let html = render_markdown(body, self.footnotes, self.tables);
        proof {
            assert(body@ =~= doc_body(encode_utf8(text@), self.yaml_metadata));
        }
        match metadata {
            Some(m) => Ok(RenderedMarkdown::with_metadata(html, m)),
            None => Ok(RenderedMarkdown::new(html)),
        }
    }

    fn into_value(v: RenderedMarkdown) -> (r: ContextValue) {
        ContextValue::Document(v)
    }
}

} // verus!
