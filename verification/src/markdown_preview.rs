//! Browser preview of markdown output: HTML escaping, the standalone HTML
//! document shell, the code-block extraction pass over a markdown event
//! stream, the highlighted-code wrapper markup, and the base64 data URL that
//! carries the document to a browser.
use vstd::prelude::*;

verus! {

use vstd::string::StrSliceExecFns;
use vstd::string::StringExecFns;
use vstd::string::StringSliceAdditionalSpecFns;
use vstd::utf8::encode_utf8;

/// How one character is escaped for HTML text and attribute positions.
pub open spec fn spec_escape_char(c: char) -> Seq<char> {
    if c == '&' {
        "&amp;"@
    } else if c == '<' {
        "&lt;"@
    } else if c == '>' {
        "&gt;"@
    } else if c == '"' {
        "&quot;"@
    } else if c == '\'' {
        "&#39;"@
    } else {
        seq![c]
    }
}

pub open spec fn spec_escape_html(s: Seq<char>) -> Seq<char>
    decreases s.len(),
{
    if s.len() == 0 {
        Seq::empty()
    } else {
        spec_escape_html(s.drop_last()) + spec_escape_char(s.last())
    }
}

/// Escapes the five HTML special characters.
pub fn escape_html(text: &str) -> (r: String)
    ensures
        r@ == spec_escape_html(text@),
{
    let n = text.unicode_len();
    let mut out = String::new();
    let mut i: usize = 0;
    while i < n
        invariant
            i <= n,
            n == text@.len(),
            out@ == spec_escape_html(text@.take(i as int)),
        decreases n - i,
    {
        let c = text.get_char(i);
        proof {
            assert(text@.take(i + 1).drop_last() =~= text@.take(i as int));
            assert(text@.take(i + 1).last() == text@[i as int]);
        }
        if c == '&' {
            out.append("&amp;");
        } else if c == '<' {
            out.append("&lt;");
        } else if c == '>' {
            out.append("&gt;");
        } else if c == '"' {
            out.append("&quot;");
        } else if c == '\'' {
            out.append("&#39;");
        } else {
            let piece = text.substring_char(i, i + 1);
            out.append(piece);
            proof {
                assert(piece@ =~= seq![c]);
            }
        }
        i = i + 1;
    }
    proof {
        assert(text@.take(n as int) =~= text@);
    }
    out
}

/// One markdown event as this pass reads it: the opening of a code block
/// with its language token, its closing, literal text, or anything else
/// (kept opaque and passed through by position).
#[derive(Debug)]
pub enum MdEvent {
    CodeStart(String),
    CodeEnd,
    Text(String),
    Other,
}

/// One piece of the planned output: pass event number `i` through unchanged,
/// or emit a collected code block with its language and body.
#[derive(Debug)]
pub enum Segment {
    Keep(usize),
    CodeBlock { lang: String, code: String },
}

pub ghost enum SegView {
    Keep(int),
    Code { lang: Seq<char>, code: Seq<char> },
}

pub open spec fn seg_view(s: Segment) -> SegView {
    match s {
        Segment::Keep(i) => SegView::Keep(i as int),
        Segment::CodeBlock { lang, code } => SegView::Code { lang: lang@, code: code@ },
    }
}

pub ghost struct PlanState {
    pub in_code: bool,
    pub lang: Seq<char>,
    pub buffer: Seq<char>,
    pub segments: Seq<SegView>,
}

/// One step of the code-block pass: a code-block opening starts collecting,
/// text inside the block is buffered, the closing emits the block, and
/// everything outside a block is kept by position.
pub open spec fn plan_step(st: PlanState, i: int, ev: MdEvent) -> PlanState {
    match ev {
        MdEvent::CodeStart(lang) => PlanState {
            in_code: true,
            lang: lang@,
            buffer: Seq::empty(),
            segments: st.segments,
        },
        MdEvent::CodeEnd => {
            if st.in_code {
                PlanState {
                    in_code: false,
                    lang: st.lang,
                    buffer: Seq::empty(),
                    segments: st.segments.push(SegView::Code { lang: st.lang, code: st.buffer }),
                }
            } else {
                st
            }
        },
        MdEvent::Text(t) => {
            if st.in_code {
                PlanState { buffer: st.buffer + t@, ..st }
            } else {
                PlanState { segments: st.segments.push(SegView::Keep(i)), ..st }
            }
        },
        MdEvent::Other => {
            if st.in_code {
                st
            } else {
                PlanState { segments: st.segments.push(SegView::Keep(i)), ..st }
            }
        },
    }
}

pub open spec fn plan_init() -> PlanState {
    PlanState { in_code: false, lang: Seq::empty(), buffer: Seq::empty(), segments: Seq::empty() }
}

pub open spec fn plan_fold(events: Seq<MdEvent>, n: int) -> PlanState
    decreases n,
{
    if n <= 0 {
        plan_init()
    } else {
        plan_step(plan_fold(events, n - 1), n - 1, events[n - 1])
    }
}

/// The planned output for a whole event stream.
pub open spec fn spec_code_segments(events: Seq<MdEvent>) -> Seq<SegView> {
    plan_fold(events, events.len() as int).segments
}

/// Splits a markdown event stream into passthrough events and collected code
/// blocks, in order: the rendering edge replaces each block with highlighted
/// markup and keeps everything else as it was.
pub fn plan_code_blocks(events: &Vec<MdEvent>) -> (r: Vec<Segment>)
    ensures
        r@.map(|i: int, s: Segment| seg_view(s)) == spec_code_segments(events@),
{
    let mut segments: Vec<Segment> = Vec::new();
    let mut in_code = false;
    let mut lang = String::new();
    let mut buffer = String::new();
    let n = events.len();
    let mut i: usize = 0;
    while i < n
        invariant
            i <= n,
            n == events@.len(),
            in_code == plan_fold(events@, i as int).in_code,
            lang@ == plan_fold(events@, i as int).lang,
            buffer@ == plan_fold(events@, i as int).buffer,
            segments@.map(|k: int, s: Segment| seg_view(s)) == plan_fold(
                events@,
                i as int,
            ).segments,
        decreases n - i,
    {
        let ghost pre = plan_fold(events@, i as int);
        let ghost pre_map = segments@.map(|k: int, s: Segment| seg_view(s));
        match &events[i] {
            MdEvent::CodeStart(l) => {
                in_code = true;
                lang = l.clone();
                buffer = String::new();
            },
            MdEvent::CodeEnd => {
                if in_code {
                    let block = Segment::CodeBlock { lang: lang.clone(), code: buffer };
                    segments.push(block);
                    in_code = false;
                    buffer = String::new();
                    proof {
                        assert(segments@.map(|k: int, s: Segment| seg_view(s)) =~= pre_map.push(
                            SegView::Code { lang: pre.lang, code: pre.buffer },
                        ));
                    }
                }
            },
            MdEvent::Text(t) => {
                if in_code {
                    buffer.append(t.as_str());
                } else {
                    segments.push(Segment::Keep(i));
                    proof {
                        assert(segments@.map(|k: int, s: Segment| seg_view(s)) =~= pre_map.push(
                            SegView::Keep(i as int),
                        ));
                    }
                }
            },
            MdEvent::Other => {
                if !in_code {
                    segments.push(Segment::Keep(i));
                    proof {
                        assert(segments@.map(|k: int, s: Segment| seg_view(s)) =~= pre_map.push(
                            SegView::Keep(i as int),
                        ));
                    }
                }
            },
        }
        i = i + 1;
    }
    segments
}

/// The markup that replaces a fenced code block: a plain wrapper when no
/// language was given, else a header naming the language (escaped) with a
/// copy button.
pub open spec fn spec_wrap_code_block(lang: Seq<char>, highlighted: Seq<char>) -> Seq<char> {
    if lang.len() == 0 {
        "<div class=\"code-block-wrapper no-header\"><pre><code>"@ + highlighted
            + "</code></pre></div>"@
    } else {
        "<div class=\"code-block-wrapper\"><div class=\"code-block-header\"><span class=\"code-lang\">"@
            + spec_escape_html(lang)
            + "</span><button class=\"copy-button\" onclick=\"copyCode(this)\">Copy</button></div><pre><code>"@
            + highlighted + "</code></pre></div>"@
    }
}

/// Builds the wrapper markup around one highlighted code block.
pub fn wrap_code_block(lang: &str, highlighted: &str) -> (r: String)
    ensures
        r@ == spec_wrap_code_block(lang@, highlighted@),
{
    if lang.is_empty() {
        let mut out = String::from_str("<div class=\"code-block-wrapper no-header\"><pre><code>");
        out.append(highlighted);
        out.append("</code></pre></div>");
        out
    } else {
        let mut out = String::from_str(
            "<div class=\"code-block-wrapper\"><div class=\"code-block-header\"><span class=\"code-lang\">",
        );
        let esc = escape_html(lang);
        out.append(esc.as_str());
        out.append(
            "</span><button class=\"copy-button\" onclick=\"copyCode(this)\">Copy</button></div><pre><code>",
        );
        out.append(highlighted);
        out.append("</code></pre></div>");
        out
    }
}

/// Wraps rendered HTML in the standalone preview document: styling, the
/// page shell, and the copy-button script around the given body.
pub fn create_html_document(body_html: &str) -> (r: String)
    ensures
        r@ == HTML_PREFIX@ + body_html@ + HTML_SUFFIX@,
{
    let mut out = String::from_str(HTML_PREFIX);
    out.append(body_html);
    out.append(HTML_SUFFIX);
    out
}

/// The document size (and data URL size) above which the preview falls back
/// to a temporary file.
pub const MAX_DATA_URL_SIZE: usize = 2000000;

/// What the base64 crate's standard alphabet produces depends on the bytes
/// alone; this names that encoding.
pub uninterp spec fn base64_standard(bytes: Seq<u8>) -> Seq<char>;

/// Relies on base64's STANDARD engine: encodes with padding, four output
/// characters for every started group of three input bytes. The input bound
/// keeps the encoded length comfortably inside `usize`, where the engine
/// would otherwise panic.
#[verifier::external_body]
fn encode_base64(bytes: &[u8]) -> (r: String)
    requires
        bytes@.len() <= 100000000,
    ensures
        r@ == base64_standard(bytes@),
        r@.len() == 4 * ((bytes@.len() + 2) / 3),
{
    base64::Engine::encode(&base64::engine::general_purpose::STANDARD, bytes)
}

/// The data URL carrying a preview document.
pub open spec fn spec_data_url(html: Seq<char>) -> Seq<char> {
    "data:text/html;charset=utf-8;base64,"@ + base64_standard(encode_utf8(html))
}

/// Encodes the document as a base64 data URL, unless the document or the
/// URL would exceed the size a browser accepts; `None` asks for the
/// temporary-file fallback.
pub fn build_data_url(html: &str) -> (r: Option<String>)
    ensures
        match r {
            Some(u) => {
                &&& u@ == spec_data_url(html@)
                &&& encode_utf8(html@).len() <= MAX_DATA_URL_SIZE
                &&& encode_utf8(u@).len() <= MAX_DATA_URL_SIZE
            },
            None => encode_utf8(html@).len() > MAX_DATA_URL_SIZE || encode_utf8(
                spec_data_url(html@),
            ).len() > MAX_DATA_URL_SIZE,
        },
{
    if html.as_bytes().len() > MAX_DATA_URL_SIZE {
        return None;
    }
    let encoded = encode_base64(html.as_bytes());
    let mut url = String::from_str("data:text/html;charset=utf-8;base64,");
    url.append(encoded.as_str());
    if url.as_str().as_bytes().len() > MAX_DATA_URL_SIZE {
        return None;
    }
    Some(url)
}

pub const HTML_PREFIX: &'static str = r#"<!DOCTYPE html>
<html>
<head>
    <meta charset="UTF-8">
    <meta name="viewport" content="width=device-width, initial-scale=1.0">
    <meta name="color-scheme" content="light dark">
    <title>Weavex Result</title>
    <style>
        :root {
            color-scheme: light dark;
        }

        @media (prefers-color-scheme: dark) {
            :root {
                --bg: #0d1117;
                --bg-secondary: #161b22;
                --text: #c9d1d9;
                --text-secondary: #8b949e;
                --accent: #58a6ff;
                --border: #30363d;
                --border-light: #21262d;
            }
        }

        @media (prefers-color-scheme: light) {
            :root {
                --bg: #ffffff;
                --bg-secondary: #f6f8fa;
                --text: #24292f;
                --text-secondary: #57606a;
                --accent: #0969da;
                --border: #d0d7de;
                --border-light: #d8dee4;
            }
        }

        body {
            font-family: -apple-system, BlinkMacSystemFont, 'Segoe UI', 'Noto Sans', Helvetica, Arial, sans-serif;
            line-height: 1.6;
            max-width: 900px;
            margin: 0 auto;
            padding: 2rem;
            background: var(--bg);
            color: var(--text);
        }

        h1, h2, h3, h4, h5, h6 {
            margin-top: 24px;
            margin-bottom: 16px;
            font-weight: 600;
            line-height: 1.25;
            color: var(--accent);
        }

        h1 { font-size: 2em; border-bottom: 1px solid var(--border-light); padding-bottom: 0.3em; }
        h2 { font-size: 1.5em; border-bottom: 1px solid var(--border-light); padding-bottom: 0.3em; }
        h3 { font-size: 1.25em; }
        h4 { font-size: 1em; }
        h5 { font-size: 0.875em; }
        h6 { font-size: 0.85em; color: var(--text-secondary); }

        p { margin-bottom: 16px; }

        a {
            color: var(--accent);
            text-decoration: none;
        }

        a:hover {
            text-decoration: underline;
        }

        code {
            background: var(--bg-secondary);
            padding: 0.2em 0.4em;
            border-radius: 6px;
            font-family: 'SFMono-Regular', Consolas, 'Liberation Mono', Menlo, monospace;
            font-size: 85%;
        }

        .code-block-wrapper {
            position: relative;
            margin-bottom: 16px;
        }

        .code-block-header {
            background: var(--bg-secondary);
            padding: 8px 12px;
            border-radius: 6px 6px 0 0;
            border-bottom: 1px solid var(--border);
            display: flex;
            justify-content: space-between;
            align-items: center;
            font-size: 12px;
            color: var(--text-secondary);
        }

        .code-lang {
            font-weight: 600;
            text-transform: uppercase;
        }

        .copy-button {
            background: var(--bg);
            border: 1px solid var(--border);
            color: var(--text);
            padding: 4px 8px;
            border-radius: 4px;
            cursor: pointer;
            font-size: 11px;
            transition: all 0.2s;
        }

        .copy-button:hover {
            background: var(--border-light);
        }

        .copy-button.copied {
            background: #238636;
            color: white;
            border-color: #238636;
        }

        pre {
            background: var(--bg-secondary);
            padding: 16px;
            border-radius: 0 0 6px 6px;
            overflow-x: auto;
            line-height: 1.45;
            margin: 0;
        }

        .code-block-wrapper.no-header pre {
            border-radius: 6px;
        }

        pre code {
            background: none;
            padding: 0;
            display: block;
        }

        ul, ol {
            padding-left: 2em;
            margin-bottom: 16px;
        }

        li {
            margin-bottom: 0.25em;
        }

        blockquote {
            padding: 0 1em;
            color: var(--text-secondary);
            border-left: 0.25em solid var(--border);
            margin: 0 0 16px 0;
        }

        table {
            border-collapse: collapse;
            width: 100%;
            margin-bottom: 16px;
            display: block;
            overflow-x: auto;
        }

        th, td {
            border: 1px solid var(--border);
            padding: 6px 13px;
        }

        th {
            font-weight: 600;
            background: var(--bg-secondary);
        }

        tr:nth-child(2n) {
            background: var(--bg-secondary);
        }

        hr {
            height: 0.25em;
            padding: 0;
            margin: 24px 0;
            background-color: var(--border);
            border: 0;
        }

        img {
            max-width: 100%;
            height: auto;
            border-radius: 6px;
        }

        .meta {
            color: var(--text-secondary);
            font-size: 0.9em;
            margin-bottom: 2rem;
            padding-bottom: 1rem;
            border-bottom: 1px solid var(--border-light);
        }
    </style>
</head>
<body>
    <div class="meta">🧵 Generated by Weavex</div>
    "#;

pub const HTML_SUFFIX: &'static str = r#"
    <script>
        function copyCode(button) {
            const wrapper = button.closest('.code-block-wrapper');
            const code = wrapper.querySelector('pre code');
            const text = code.textContent;

            navigator.clipboard.writeText(text).then(() => {
                button.textContent = 'Copied!';
                button.classList.add('copied');
                setTimeout(() => {
                    button.textContent = 'Copy';
                    button.classList.remove('copied');
                }, 2000);
            });
        }
    </script>
</body>
</html>"#;

} // verus!
