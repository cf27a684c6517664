//! Plugin that binds a template variable to a GitHub-Flavored Markdown
//! document, rendered to HTML, with an optional leading YAML metadata
//! block.

use vstd::prelude::*;
use vstd::slice::slice_subrange;
use vstd::utf8::encode_utf8;

use crate::context::{ContextValue, RenderedMarkdown};
use crate::error::Error;
use crate::header::{lemma_scan_offset_in_bounds, read_header};
use crate::plugin::{ArgSpec, CompileVariablePlugin, PluginArgs};
use crate::plugins::markdown::{doc_body, doc_has_metadata, doc_read_ok};
use crate::source::{Interpretation, Source, StreamRead};

verus! {

/// The HTML that the GitHub-Flavored Markdown renderer produces for
/// this text with the given switches. A function of the text and the
/// switches alone.
pub uninterp spec fn gfm_html(
    bytes: Seq<u8>,
    hardbreaks: bool,
    smart: bool,
    pre_lang: bool,
    safe: bool,
    strikethrough: bool,
    tables: bool,
    autolink: bool,
    tasklists: bool,
    superscript: bool,
    footnotes: bool,
) -> Seq<char>;

/// Relies on comrak::markdown_to_html: rendering GitHub-Flavored
/// Markdown to HTML depends on the input text and the option switches
/// alone.
#[verifier::external_body]
fn render_gfm(
    bytes: &[u8],
    hardbreaks: bool,
    smart: bool,
    pre_lang: bool,
    safe: bool,
    strikethrough: bool,
    tables: bool,
    autolink: bool,
    tasklists: bool,
    superscript: bool,
    footnotes: bool,
) -> (r: String)
    ensures
        r@ == gfm_html(
            bytes@,
            hardbreaks,
            smart,
            pre_lang,
            safe,
            strikethrough,
            tables,
            autolink,
            tasklists,
            superscript,
            footnotes,
        ),
{
    let text = String::from_utf8_lossy(bytes);
    let mut o = comrak::Options::default();
    o.render.hardbreaks = hardbreaks;
    o.parse.smart = smart;
    o.render.github_pre_lang = pre_lang;
    o.render.escape = safe;
    o.extension.strikethrough = strikethrough;
    o.extension.table = tables;
    o.extension.autolink = autolink;
    o.extension.tasklist = tasklists;
    o.extension.superscript = superscript;
    o.extension.footnotes = footnotes;
    comrak::markdown_to_html(&text, &o)
}

/// Binds a variable to a GitHub-Flavored Markdown file, rendered to
/// HTML. With the metadata switch on, a leading YAML block is decoded
/// and carried alongside the rendered body.
pub struct GithubMarkdownPlugin {
    pub yaml_metadata: bool,
    pub hardbreaks: bool,
    pub smart_punctuation: bool,
    pub github_pre_lang: bool,
    pub safe: bool,
    pub strikethrough: bool,
    pub tables: bool,
    pub autolink: bool,
    pub tasklists: bool,
    pub superscript: bool,
    pub footnotes: bool,
}

impl GithubMarkdownPlugin {
    /// The rendered HTML this plugin's switches produce for a body.
    pub open spec fn html_spec(&self, body: Seq<u8>) -> Seq<char> {
        gfm_html(
            body,
            self.hardbreaks,
            self.smart_punctuation,
            self.github_pre_lang,
            self.safe,
            self.strikethrough,
            self.tables,
            self.autolink,
            self.tasklists,
            self.superscript,
            self.footnotes,
        )
    }
}

impl CompileVariablePlugin for GithubMarkdownPlugin {
    type RenderValue = RenderedMarkdown;

    open spec fn read_ok(&self, content: Seq<char>) -> bool {
        doc_read_ok(encode_utf8(content), self.yaml_metadata)
    }

    open spec fn read_val(&self, content: Seq<char>, v: RenderedMarkdown) -> bool {
        let b = encode_utf8(content);
        &&& v.html_view() == self.html_spec(doc_body(b, self.yaml_metadata))
        &&& v.has_metadata() == doc_has_metadata(b, self.yaml_metadata)
    }

    open spec fn value_spec(v: RenderedMarkdown) -> ContextValue {
        ContextValue::Document(v)
    }

    open spec fn interp_spec() -> Interpretation {
        Interpretation::Path
    }

    fn plugin_name() -> (r: &'static str)
        ensures
            r@ == "gfm"@,
    {
        "gfm"
    }

    fn arg_full_name() -> (r: &'static str)
        ensures
            r@ == "gfm"@,
    {
        "gfm"
    }

    fn arg_help() -> (r: &'static str) {
        "Assign variable to contents of a GitHub-Flavored Markdown file"
    }

    fn arg_interpretation() -> (r: Interpretation) {
        Interpretation::Path
    }

    fn additional_args() -> (r: Vec<ArgSpec>)
        ensures
            r@.len() == 11,
            r@[0].name@ == "gfm-yaml-metadata"@,
            r@[1].name@ == "gfm-hardbreaks"@,
            r@[2].name@ == "gfm-smart-puncutation"@,
            r@[3].name@ == "gfm-pre-lang"@,
            r@[4].name@ == "gfm-safe"@,
            r@[5].name@ == "gfm-strikethrough"@,
            r@[6].name@ == "gfm-tables"@,
            r@[7].name@ == "gfm-autolink"@,
            r@[8].name@ == "gfm-tasklists"@,
            r@[9].name@ == "gfm-superscript"@,
            r@[10].name@ == "gfm-footnotes"@,
    {
        let mut args: Vec<ArgSpec> = Vec::new();
        args.push(ArgSpec::new("gfm-yaml-metadata", "Enable YAML metadata block"));
        args.push(ArgSpec::new("gfm-hardbreaks", "Convert soft breaks to hard breaks in output"));
        args.push(
            ArgSpec::new("gfm-smart-puncutation", "Convert punctuation to unicode equivalents"),
        );
        args.push(ArgSpec::new("gfm-pre-lang", "Enable GitHub pre blocks"));
        args.push(ArgSpec::new("gfm-safe", "Disable rendering raw HTML and dangerous links"));
        args.push(ArgSpec::new("gfm-strikethrough", "Enable strikethrough syntax"));
        args.push(ArgSpec::new("gfm-tables", "Enable tables"));
        args.push(ArgSpec::new("gfm-autolink", "Enable autolinks"));
        args.push(ArgSpec::new("gfm-tasklists", "Enable task lists"));
        args.push(ArgSpec::new("gfm-superscript", "Enable superscript syntax"));
        args.push(ArgSpec::new("gfm-footnotes", "Enable footnotes"));
        args
    }

    fn from_args(args: &PluginArgs) -> (r: GithubMarkdownPlugin)
        ensures
            r.yaml_metadata == args.has_flag("gfm-yaml-metadata"@),
            r.hardbreaks == args.has_flag("gfm-hardbreaks"@),
            r.smart_punctuation == args.has_flag("gfm-smart-puncutation"@),
            r.github_pre_lang == args.has_flag("gfm-pre-lang"@),
            r.safe == args.has_flag("gfm-safe"@),
            r.strikethrough == args.has_flag("gfm-strikethrough"@),
            r.tables == args.has_flag("gfm-tables"@),
            r.autolink == args.has_flag("gfm-autolink"@),
            r.tasklists == args.has_flag("gfm-tasklists"@),
            r.superscript == args.has_flag("gfm-superscript"@),
            r.footnotes == args.has_flag("gfm-footnotes"@),
    {
        GithubMarkdownPlugin {
            yaml_metadata: args.is_present("gfm-yaml-metadata"),
            hardbreaks: args.is_present("gfm-hardbreaks"),
            smart_punctuation: args.is_present("gfm-smart-puncutation"),
            github_pre_lang: args.is_present("gfm-pre-lang"),
            safe: args.is_present("gfm-safe"),
            strikethrough: args.is_present("gfm-strikethrough"),
            tables: args.is_present("gfm-tables"),
            autolink: args.is_present("gfm-autolink"),
            tasklists: args.is_present("gfm-tasklists"),
            superscript: args.is_present("gfm-superscript"),
            footnotes: args.is_present("gfm-footnotes"),
        }
    }

    fn read<R: StreamRead>(&self, src: Source<R>) -> (r: Result<RenderedMarkdown, Error>) {
        let text = match src.consume() {
            Ok(text) => text,
            Err(e) => {
                return Err(e);
            },
        };
        let bytes: Vec<u8> = text.as_str().as_bytes_vec();
        let header: (Option<serde_yaml::Value>, usize) = if self.yaml_metadata {
            match read_header(bytes.as_slice()) {
                Ok(p) => p,
                Err(e) => {
                    return Err(e);
                },
            }
        } else {
            (None, 0)
        };
        let (metadata, offset) = header;
        proof {
            lemma_scan_offset_in_bounds(bytes@);
        }
        let body: &[u8] = slice_subrange(bytes.as_slice(), offset, bytes.len());
        let html = render_gfm(
            body,
            self.hardbreaks,
            self.smart_punctuation,
            self.github_pre_lang,
            self.safe,
            self.strikethrough,
            self.tables,
            self.autolink,
            self.tasklists,
            self.superscript,
            self.footnotes,
        );
        proof {
            assert(body@ =~= doc_body(encode_utf8(text@), self.yaml_metadata));
        }
        match metadata {
            Some(m) => Ok(RenderedMarkdown::with_metadata(html, m)),
            None => Ok(RenderedMarkdown::new(html)),
        }
    }

    fn into_value(v: RenderedMarkdown) -> (r: ContextValue) {
        ContextValue::Document(v)
    }
}

} // verus!
