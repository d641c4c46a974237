use weavex::agent::{render_fetch_result, render_search_results};
use weavex::client::{FetchResponse, SearchResponse, SearchResult};
use weavex::formatter::{format_fetch_response, format_search_results};
use weavex::loading::{AnimationState, TickAction};
use weavex::ollama_local::{create_web_fetch_tool, create_web_search_tool};

fn result(title: &str, url: &str, content: &str) -> SearchResult {
    SearchResult {
        title: title.to_string(),
        url: url.to_string(),
        content: content.to_string(),
    }
}

#[test]
fn search_results_render_as_numbered_blocks() {
    let results = vec![
        result("First", "https://a.example", "alpha"),
        result("Second", "https://b.example", "beta"),
    ];
    let text = render_search_results(&results);
    assert_eq!(
        text,
        "Result 1:\nTitle: First\nURL: https://a.example\nContent: alpha\n\n\
         Result 2:\nTitle: Second\nURL: https://b.example\nContent: beta\n\n"
    );
}

#[test]
fn search_result_content_preview_is_capped_at_500_bytes() {
    let long = "x".repeat(600);
    let results = vec![result("T", "U", &long)];
    let text = render_search_results(&results);
    assert!(text.contains(&"x".repeat(500)));
    assert!(!text.contains(&"x".repeat(501)));
}

#[test]
fn fetch_result_renders_title_content_and_link_count() {
    let response = FetchResponse {
        title: "Page".to_string(),
        content: "Body text".to_string(),
        links: vec!["a".to_string(), "b".to_string(), "c".to_string()],
    };
    let text = render_fetch_result(&response);
    assert_eq!(text, "Title: Page\n\nContent:\nBody text\n\nLinks found: 3");
}

#[test]
fn fetch_result_content_is_capped_at_2000_bytes() {
    let response = FetchResponse {
        title: "T".to_string(),
        content: "y".repeat(2500),
        links: vec![],
    };
    let text = render_fetch_result(&response);
    assert!(text.contains(&"y".repeat(2000)));
    assert!(!text.contains(&"y".repeat(2001)));
}

#[test]
fn formatted_search_results_for_terminal() {
    let empty = SearchResponse { results: vec![] };
    assert_eq!(format_search_results(&empty), "No results found.\n");

    let response = SearchResponse {
        results: vec![result("Title A", "https://a.example", "short content")],
    };
    assert_eq!(
        format_search_results(&response),
        "Found 1 results:\n\n1. Title A\n   https://a.example\n   short content\n\n"
    );

    // Long content is previewed at 200 bytes with an ellipsis.
    let response = SearchResponse {
        results: vec![result("Long", "https://l.example", &"z".repeat(250))],
    };
    let text = format_search_results(&response);
    assert!(text.contains(&format!("{}...", "z".repeat(200))));
    assert!(!text.contains(&"z".repeat(201)));
}

#[test]
fn formatted_fetch_response_for_terminal() {
    let response = FetchResponse {
        title: "Page".to_string(),
        content: "Hello".to_string(),
        links: vec!["https://one".to_string(), "https://two".to_string()],
    };
    assert_eq!(
        format_fetch_response(&response),
        "Title: Page\n\nContent:\nHello\n\n\
         Found 2 links:\n  1. https://one\n  2. https://two\n"
    );
}

#[test]
fn formatted_fetch_response_lists_at_most_ten_links() {
    let links: Vec<String> = (1..=12).map(|i| format!("https://l{}", i)).collect();
    let response = FetchResponse {
        title: "T".to_string(),
        content: "c".to_string(),
        links,
    };
    let text = format_fetch_response(&response);
    assert!(text.contains("Found 12 links:\n"));
    assert!(text.contains("  10. https://l10\n"));
    assert!(!text.contains("  11. https://l11"));
    assert!(text.contains("  ... and 2 more\n"));
}

#[test]
fn formatted_fetch_long_content_names_the_json_mode() {
    let response = FetchResponse {
        title: "T".to_string(),
        content: "w".repeat(1500),
        links: vec![],
    };
    let text = format_fetch_response(&response);
    assert!(text.contains(&"w".repeat(1000)));
    assert!(!text.contains(&"w".repeat(1001)));
    assert!(text.contains("[Content truncated. Use --json for full content]"));
}

#[test]
fn tool_registry_descriptors() {
    let search = create_web_search_tool();
    assert_eq!(search.tool_type, "function");
    assert_eq!(search.function.name, "web_search");
    assert!(search.function.parameters.contains("\"required\":[\"query\"]"));
    assert!(search.function.parameters.contains("max_results"));

    let fetch = create_web_fetch_tool();
    assert_eq!(fetch.tool_type, "function");
    assert_eq!(fetch.function.name, "web_fetch");
    assert!(fetch.function.parameters.contains("\"required\":[\"url\"]"));
}

#[test]
fn indicator_state_transitions() {
    let mut s = AnimationState::new();
    assert!(s.running && s.visible);

    s.pause();
    assert!(s.running && !s.visible);
    s.resume();
    assert!(s.running && s.visible);

    s.stop();
    assert!(!s.running);
    // Stopped is terminal: pause and resume are no-ops now.
    s.pause();
    assert!(!s.running);
    s.resume();
    assert!(!s.running);
}

#[test]
fn indicator_tick_actions() {
    let mut s = AnimationState::new();
    match s.tick(3) {
        TickAction::Render(dots) => assert_eq!(dots, "..."),
        other => panic!("expected a rendered marker, got {:?}", other),
    }
    s.pause();
    assert!(matches!(s.tick(4), TickAction::Clear));
    s.stop();
    assert!(matches!(s.tick(5), TickAction::Stop));
}
