use myrica::markup::{error_page, escape_html, WELCOME_HTML};

#[test]
fn markup_is_escaped() {
    assert_eq!(
        escape_html(r#"<a href="x">R&D's</a>"#),
        "&lt;a href=&quot;x&quot;&gt;R&amp;D&#39;s&lt;/a&gt;"
    );
    assert_eq!(escape_html("&amp;"), "&amp;amp;");
    assert_eq!(escape_html("日本語"), "日本語");
}

#[test]
fn error_pages_show_url_and_reason() {
    let page = error_page("http://x/?a=1&b=<2>", "it's gone");
    assert!(page.starts_with("<!doctype html>\n<html><head><title>Could not load page</title>"));
    assert!(page.contains("html,body{height:100%;margin:0}body{display:grid"));
    assert!(page.contains(
        "<p><code>http://x/?a=1&amp;b=&lt;2&gt;</code></p><p>it&#39;s gone</p></main></body></html>"
    ));
}

#[test]
fn the_welcome_page_names_the_browser() {
    assert!(WELCOME_HTML.contains("<title>Myrica</title>"));
    assert!(WELCOME_HTML.ends_with("</html>"));
}
