use mdp::MarkdownPreviewTool;
use mdp::Options;
use mdp::Platform;
use mdp::run::file_name_of;
use mdp::run::join_path;

fn tool(css: Option<&str>) -> MarkdownPreviewTool {
    MarkdownPreviewTool::new(Options {
        markdown_file: String::from("input.md"),
        css_file: css.map(String::from),
        platform: Platform::Windows,
    })
}

#[test]
fn renders_heading_and_paragraph() {
    let page = tool(None).parse_content("# Hello\n\nWorld").unwrap();
    assert!(page.contains("<h1>Hello</h1>"));
    assert!(page.contains("<p>World</p>"));
    assert!(page.starts_with("<!DOCTYPE html>"));
    assert!(page.contains("<title>Markdown Preview Tool</title>"));
    assert!(page.ends_with("</html>\n"));
}

#[test]
fn strips_script_elements() {
    let page = tool(None)
        .parse_content("hello <script>alert(1)</script> world")
        .unwrap();
    assert!(!page.contains("<script"));
    assert!(!page.contains("alert(1)"));
    assert!(page.contains("hello"));
    assert!(page.contains("world"));
}

#[test]
fn strips_event_handler_attributes() {
    let page = tool(None)
        .parse_content("look: <img src=\"x.png\" onerror=\"alert(1)\">")
        .unwrap();
    assert!(!page.contains("onerror"));
    assert!(!page.contains("alert(1)"));
}

#[test]
fn rendering_is_deterministic() {
    let input = "# Title\n\nSome *emphasis*, a [link](https://example.com), and:\n\n- one\n- two\n";
    let first = tool(Some("style.css")).parse_content(input).unwrap();
    let second = tool(Some("style.css")).parse_content(input).unwrap();
    assert_eq!(first, second);
    assert_eq!(first.as_bytes(), second.as_bytes());
}

#[test]
fn stylesheet_link_appears_exactly_once_with_relative_name() {
    let page = tool(Some("assets/style.css")).parse_content("# Hi").unwrap();
    let expected = "<link rel=\"stylesheet\" href=\"style.css\" type=\"text/css\">";
    assert!(page.contains(expected));
    assert_eq!(page.matches("<link").count(), 1);
    let head = &page[..page.find("<body>").unwrap()];
    assert_eq!(head.matches("<link").count(), 1);
    assert!(!page.contains("assets/style.css"));
}

#[test]
fn no_stylesheet_link_without_stylesheet() {
    let page = tool(None).parse_content("# Hi").unwrap();
    assert!(!page.contains("<link"));
}

#[test]
fn markdown_extensions_are_enabled() {
    let page = tool(None)
        .parse_content("| a | b |\n|---|---|\n| 1 | 2 |\n\n~~gone~~")
        .unwrap();
    assert!(page.contains("<table>"));
    assert!(page.contains("<del>gone</del>"));
}

#[test]
fn body_fragment_stands_between_body_tags() {
    let page = tool(None).parse_content("plain text").unwrap();
    let start = page.find("<body>\n").unwrap() + "<body>\n".len();
    let end = page.rfind("\n</body>").unwrap();
    let body = &page[start..end];
    assert_eq!(body, "<p>plain text</p>\n");
}

#[test]
fn file_name_takes_last_component() {
    assert_eq!(file_name_of("assets/style.css"), "style.css");
    assert_eq!(file_name_of("style.css"), "style.css");
    assert_eq!(file_name_of("a\\b\\c.css"), "c.css");
    assert_eq!(file_name_of("mixed/dir\\name.css"), "name.css");
    assert_eq!(file_name_of("dir/"), "");
    assert_eq!(file_name_of(""), "");
}

#[test]
fn join_uses_platform_separator() {
    assert_eq!(
        join_path(Platform::Windows, "C:\\tmp\\mdp1", "temp.html"),
        "C:\\tmp\\mdp1\\temp.html"
    );
    assert_eq!(join_path(Platform::Linux, "/tmp/mdp1", "temp.html"), "/tmp/mdp1/temp.html");
}
