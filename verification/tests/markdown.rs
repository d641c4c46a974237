use weavex::cli::{Cli, Command};
use weavex::markdown_preview::{
    build_data_url, create_html_document, escape_html, plan_code_blocks, wrap_code_block,
    MdEvent, Segment,
};

#[test]
fn test_escape_html() {
    assert_eq!(escape_html("<script>"), "&lt;script&gt;");
    assert_eq!(escape_html("a & b"), "a &amp; b");
}

#[test]
fn escape_html_covers_quotes() {
    assert_eq!(escape_html("\"x\" 'y'"), "&quot;x&quot; &#39;y&#39;");
    assert_eq!(escape_html("plain"), "plain");
    assert_eq!(escape_html(""), "");
}

#[test]
fn code_blocks_are_collected_in_order() {
    let events = vec![
        MdEvent::Other,
        MdEvent::Text("intro".to_string()),
        MdEvent::CodeStart("rust".to_string()),
        MdEvent::Text("fn main() {".to_string()),
        MdEvent::Text("}".to_string()),
        MdEvent::CodeEnd,
        MdEvent::Other,
    ];
    let segments = plan_code_blocks(&events);
    assert_eq!(segments.len(), 4);
    assert!(matches!(segments[0], Segment::Keep(0)));
    assert!(matches!(segments[1], Segment::Keep(1)));
    match &segments[2] {
        Segment::CodeBlock { lang, code } => {
            assert_eq!(lang, "rust");
            assert_eq!(code, "fn main() {}");
        }
        other => panic!("expected a code block, got {:?}", other),
    }
    assert!(matches!(segments[3], Segment::Keep(6)));
}

#[test]
fn text_inside_code_blocks_is_not_passed_through() {
    let events = vec![
        MdEvent::CodeStart(String::new()),
        MdEvent::Text("hidden".to_string()),
        MdEvent::CodeEnd,
    ];
    let segments = plan_code_blocks(&events);
    assert_eq!(segments.len(), 1);
    match &segments[0] {
        Segment::CodeBlock { lang, code } => {
            assert_eq!(lang, "");
            assert_eq!(code, "hidden");
        }
        other => panic!("expected a code block, got {:?}", other),
    }
}

#[test]
fn code_block_wrappers() {
    assert_eq!(
        wrap_code_block("", "let x;"),
        "<div class=\"code-block-wrapper no-header\"><pre><code>let x;</code></pre></div>"
    );
    let with_header = wrap_code_block("rust", "let x;");
    assert!(with_header.starts_with("<div class=\"code-block-wrapper\">"));
    assert!(with_header.contains("<span class=\"code-lang\">rust</span>"));
    assert!(with_header.contains("<button class=\"copy-button\" onclick=\"copyCode(this)\">"));
    assert!(with_header.ends_with("<pre><code>let x;</code></pre></div>"));
    // The language token is escaped in the header.
    assert!(wrap_code_block("c<pp", "x").contains("<span class=\"code-lang\">c&lt;pp</span>"));
}

#[test]
fn html_document_wraps_the_body() {
    let doc = create_html_document("<p>Hello</p>");
    assert!(doc.starts_with("<!DOCTYPE html>"));
    assert!(doc.contains("<p>Hello</p>"));
    assert!(doc.ends_with("</html>"));
    assert!(doc.contains("code-block-wrapper"));
}

#[test]
fn data_url_encodes_the_document() {
    let url = build_data_url("<p>hi</p>").unwrap();
    assert_eq!(url, "data:text/html;charset=utf-8;base64,PHA+aGk8L3A+");
}

#[test]
fn oversized_document_asks_for_the_file_fallback() {
    let big = "a".repeat(2_000_001);
    assert!(build_data_url(&big).is_none());
    // Near the limit the encoded URL itself is what overflows.
    let nearly = "a".repeat(1_999_999);
    assert!(build_data_url(&nearly).is_none());
    assert!(build_data_url("small").is_some());
}

#[test]
fn cli_query_accessor() {
    let cli = Cli {
        command: None,
        query: Some("find things".to_string()),
        api_key: None,
        max_results: None,
        json: false,
        preview: false,
        verbose: false,
        timeout: 30,
    };
    assert_eq!(cli.get_query(), Some("find things"));

    let cli = Cli {
        command: Some(Command::Fetch { url: "https://example.com".to_string() }),
        query: None,
        api_key: None,
        max_results: None,
        json: false,
        preview: false,
        verbose: false,
        timeout: 30,
    };
    assert_eq!(cli.get_query(), None);
}
