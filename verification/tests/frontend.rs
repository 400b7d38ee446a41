use gitcoach::errors::is_error_message;
use gitcoach::links::{fix_bracketed_urls, open_links_in_new_tab, parse_markdown_to_safe_html};

#[test]
fn test_markdown_link_target_blank() {
    let markdown = "Here is a [Google](https://google.com) link.";
    let html = parse_markdown_to_safe_html(markdown);

    assert!(html.contains("<a target=\"_blank\" rel=\"noopener noreferrer\" href=\"https://google.com\">Google</a>"));
}

#[test]
fn test_markdown_newlines_and_lists() {
    let markdown = "Line 1\nLine 2\n\n- Item 1\n- Item 2";
    let html = parse_markdown_to_safe_html(markdown);

    assert!(html.contains("<li>Item 1</li>"));
    assert!(html.contains("<li>Item 2</li>"));
}

#[test]
fn test_is_error_message() {
    assert!(is_error_message("Error: Could not connect to the backend server."));
    assert!(is_error_message("Woops! It looks like we've hit the free tier quota limit"));
    assert!(is_error_message("The Gemini API is currently experiencing extremely high demand."));
    assert!(is_error_message("Failed to communicate with AI: 500 Internal Server Error"));
    assert!(!is_error_message("Hello! I am GitCoach."));
    assert!(!is_error_message("Here is your code: Woops something else"));
}

#[test]
fn test_fix_bracketed_urls() {
    // Raw bracketed URL
    let raw = "Check this out: [https://github.com/BoxBoxJason/sonarqube-client-go/issues/174]";
    let fixed = fix_bracketed_urls(raw);
    assert_eq!(fixed, "Check this out: [https://github.com/BoxBoxJason/sonarqube-client-go/issues/174](https://github.com/BoxBoxJason/sonarqube-client-go/issues/174)");

    // Already correct markdown link
    let md = "Check this out: [link](https://github.com)";
    let fixed_md = fix_bracketed_urls(md);
    assert_eq!(fixed_md, md);

    // Already correct markdown link where the text is also the URL
    let md2 = "Check this out: [https://google.com](https://google.com)";
    let fixed_md2 = fix_bracketed_urls(md2);
    assert_eq!(fixed_md2, md2);

    // Not a URL (has spaces)
    let bracketed_text = "This is [http not a url]";
    let fixed_text = fix_bracketed_urls(bracketed_text);
    assert_eq!(fixed_text, bracketed_text);
}

#[test]
fn bracketed_urls_edge_cases() {
    // Two bare URLs in one text, and a text after them.
    assert_eq!(
        fix_bracketed_urls("[http://a] and [https://b]!"),
        "[http://a](http://a) and [https://b](https://b)!"
    );
    // An opening with no closing bracket is kept.
    assert_eq!(fix_bracketed_urls("see [https://unclosed"), "see [https://unclosed");
    // Text with no bracketed URL is unchanged.
    assert_eq!(fix_bracketed_urls("plain (text) [link]"), "plain (text) [link]");
    // Non-ASCII text before and inside the URL.
    assert_eq!(fix_bracketed_urls("é [http://ü]"), "é [http://ü](http://ü)");
    // A tab is whitespace too.
    assert_eq!(fix_bracketed_urls("[http\tx]"), "[http\tx]");
}

#[test]
fn every_link_opens_in_a_new_tab() {
    assert_eq!(
        open_links_in_new_tab("<p><a href=\"x\">x</a> <a href=\"y\">y</a></p>"),
        "<p><a target=\"_blank\" rel=\"noopener noreferrer\" href=\"x\">x</a> <a target=\"_blank\" rel=\"noopener noreferrer\" href=\"y\">y</a></p>"
    );
    assert_eq!(open_links_in_new_tab("<p>no links</p>"), "<p>no links</p>");
}

#[test]
fn bare_urls_become_links_in_html() {
    let html = parse_markdown_to_safe_html("Look: [https://example.com]");
    assert!(html.contains("<a target=\"_blank\" rel=\"noopener noreferrer\" href=\"https://example.com\">https://example.com</a>"));
    assert!(html.starts_with("<p>"));
}
