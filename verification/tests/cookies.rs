use myrica::cookies::{
    judge_cookie, spares_existing, BrowserCookies, CookieScope, ParsedCookie,
};
use myrica::location::PageUrl;

const PAGE: &str = "https://www.example.com/dir/page";

#[test]
fn scripts_share_http_cookies_without_access_to_httponly() {
    let mut jar = BrowserCookies::default();
    jar.set_cookies(PAGE, &vec![String::from("secret=http; HttpOnly; Secure; Path=/")]);
    jar.set_document_cookie(PAGE, "visible=script; Secure; Path=/");
    jar.set_document_cookie(PAGE, "secret=overwritten; Path=/");
    jar.set_document_cookie(PAGE, "secret=; Max-Age=0; Path=/");
    jar.set_document_cookie(PAGE, "forged=x; HttpOnly; Path=/");
    assert_eq!(jar.document_cookies(PAGE), "visible=script");
    let http = jar.cookies(PAGE).unwrap();
    assert!(http.contains("secret=http"));
    assert!(http.contains("visible=script"));
    assert!(!http.contains("forged"));
    jar.set_document_cookie(PAGE, "visible=; Max-Age=0; Path=/");
    assert_eq!(jar.document_cookies(PAGE), "");
}

#[test]
fn cookie_scope_and_prefixes_are_enforced() {
    let mut jar = BrowserCookies::default();
    let https = PAGE;
    jar.set_document_cookie(https, "scoped=ok");
    jar.set_document_cookie(https, "wrong=x; Domain=unrelated.test");
    jar.set_document_cookie(https, "super=x; Domain=com");
    jar.set_document_cookie(https, "__Host-invalid=x; Secure; Domain=example.com; Path=/");
    jar.set_document_cookie(https, "__Secure-invalid=x");
    assert_eq!(jar.document_cookies(https), "scoped=ok");
    assert_eq!(jar.document_cookies("https://www.example.com/elsewhere"), "");
    assert_eq!(jar.document_cookies("https://other.example.com/dir/page"), "");
    let http = "http://www.example.com/dir/page";
    jar.set_document_cookie(http, "insecure=x; Secure");
    jar.set_document_cookie(https, "secure=ok; Secure");
    assert_eq!(jar.document_cookies(http), "scoped=ok");
    assert!(!jar.document_cookies(https).contains("insecure"));
}

#[test]
fn the_prefixes_are_granted_where_their_promises_hold() {
    let mut jar = BrowserCookies::default();
    jar.set_document_cookie(PAGE, "__Host-session=1; Secure; Path=/");
    assert_eq!(jar.document_cookies(PAGE), "__Host-session=1");
    jar.set_document_cookie(PAGE, "__Secure-token=2; Secure; Path=/dir");
    assert_eq!(jar.document_cookies(PAGE), "__Secure-token=2; __Host-session=1");
}

#[test]
fn longer_paths_come_first() {
    let mut jar = BrowserCookies::default();
    jar.set_document_cookie(PAGE, "root=1; Path=/");
    jar.set_document_cookie(PAGE, "deep=2; Path=/dir/page");
    jar.set_document_cookie(PAGE, "middle=3; Path=/dir");
    assert_eq!(jar.document_cookies(PAGE), "deep=2; middle=3; root=1");
    assert_eq!(jar.document_cookies("https://www.example.com/dirt"), "root=1");
    assert_eq!(jar.document_cookies("https://www.example.com/dir/"), "middle=3; root=1");
}

#[test]
fn a_domain_cookie_reaches_the_hosts_under_it() {
    let mut jar = BrowserCookies::default();
    jar.set_document_cookie(PAGE, "wide=1; Domain=example.com; Path=/");
    assert_eq!(jar.document_cookies("https://other.example.com/"), "wide=1");
    assert_eq!(jar.document_cookies("https://example.com/"), "wide=1");
    assert_eq!(jar.document_cookies("https://badexample.com/"), "");
}

#[test]
fn a_public_suffix_keeps_its_own_cookie_to_itself() {
    let mut jar = BrowserCookies::default();
    jar.set_document_cookie("https://github.io/", "own=1; Domain=github.io; Path=/");
    assert_eq!(jar.document_cookies("https://github.io/"), "own=1");
    assert_eq!(jar.document_cookies("https://someone.github.io/"), "");
    jar.set_document_cookie("https://someone.github.io/", "evil=1; Domain=github.io; Path=/");
    assert_eq!(jar.document_cookies("https://github.io/"), "own=1");
}

#[test]
fn this_machine_counts_as_secure() {
    let mut jar = BrowserCookies::default();
    for origin in ["http://localhost/", "http://127.0.0.1/"] {
        jar.set_document_cookie(origin, "local=1; Secure; Path=/");
        assert_eq!(jar.document_cookies(origin), "local=1");
    }
    jar.set_document_cookie("http://128.0.0.1/", "remote=1; Secure; Path=/");
    assert_eq!(jar.document_cookies("http://128.0.0.1/"), "");
}

#[test]
fn pages_off_the_web_have_no_cookies() {
    let mut jar = BrowserCookies::default();
    jar.set_document_cookie("about:blank", "a=1");
    jar.set_document_cookie("not a url", "a=1");
    assert_eq!(jar.document_cookies("about:blank"), "");
    assert_eq!(jar.document_cookies("not a url"), "");
    assert_eq!(jar.cookies("not a url"), None);
    assert_eq!(jar.cookies(PAGE), None);
}

#[test]
fn a_cookie_that_fits_no_header_is_not_sent() {
    let mut jar = BrowserCookies::default();
    jar.set_document_cookie(PAGE, "bell=\u{7}; Path=/");
    assert_eq!(jar.document_cookies(PAGE), "bell=\u{7}");
    assert_eq!(jar.cookies(PAGE), None);
}

#[test]
fn a_refused_text_is_no_cookie() {
    let mut jar = BrowserCookies::default();
    jar.set_document_cookie(PAGE, "no pair");
    jar.set_document_cookie(PAGE, "=value");
    assert_eq!(jar.document_cookies(PAGE), "");
}

#[test]
fn later_cookies_of_a_response_replace_earlier_ones() {
    let mut jar = BrowserCookies::default();
    jar.set_cookies(
        PAGE,
        &vec![String::from("a=1; Path=/"), String::from("b=2; Path=/"), String::from("a=3; Path=/")],
    );
    let text = jar.document_cookies(PAGE);
    assert!(text == "a=3; b=2" || text == "b=2; a=3");
}

#[test]
fn a_script_may_replace_its_own_cookie() {
    let mut jar = BrowserCookies::default();
    jar.set_document_cookie(PAGE, "a=1; Path=/");
    jar.set_document_cookie(PAGE, "a=2; Path=/");
    assert_eq!(jar.document_cookies(PAGE), "a=2");
}

#[test]
fn scripts_spare_http_only_cookies_that_last() {
    let mut jar = BrowserCookies::default();
    jar.set_cookies(PAGE, &vec![String::from("sid=1; HttpOnly; Max-Age=3600; Path=/")]);
    for attempt in [
        "sid=stolen; Path=/",
        "sid=stolen; Max-Age=60; Path=/",
        "sid=; Max-Age=0; Path=/",
        "sid=; Expires=Thu, 01 Jan 1970 00:00:00 GMT; Path=/",
        "sid=stolen; HttpOnly; Path=/",
    ] {
        jar.set_document_cookie(PAGE, attempt);
        assert_eq!(jar.cookies(PAGE), Some(String::from("sid=1")));
        assert_eq!(jar.document_cookies(PAGE), "");
    }
}

#[test]
fn scripts_take_the_place_of_expired_http_only_cookies() {
    let mut jar = BrowserCookies::default();
    jar.set_cookies(PAGE, &vec![String::from("sid=1; HttpOnly; Path=/")]);
    jar.set_cookies(PAGE, &vec![String::from("sid=; Max-Age=0; Path=/")]);
    assert_eq!(jar.cookies(PAGE), None);
    jar.set_document_cookie(PAGE, "sid=2; Path=/");
    assert_eq!(jar.document_cookies(PAGE), "sid=2");
}

#[test]
fn scripts_remove_their_own_cookies() {
    let mut jar = BrowserCookies::default();
    for attempt in ["a=; Max-Age=0; Path=/", "a=; Max-Age=-5; Path=/"] {
        jar.set_document_cookie(PAGE, "a=1; Path=/");
        jar.set_document_cookie(PAGE, "b=2; Path=/");
        jar.set_document_cookie(PAGE, attempt);
        assert_eq!(jar.document_cookies(PAGE), "b=2");
    }
    jar.set_document_cookie(PAGE, "c=3; Max-Age=0; Path=/");
    assert_eq!(jar.document_cookies(PAGE), "b=2");
    jar.set_document_cookie(PAGE, "a=3; Max-Age=3600; Path=/dir");
    assert_eq!(jar.document_cookies(PAGE), "a=3; b=2");
    jar.set_document_cookie(PAGE, "a=4; Max-Age=3600; Path=/dir");
    assert_eq!(jar.document_cookies(PAGE), "a=4; b=2");
}

#[test]
fn a_cookie_with_a_date_long_past_is_not_taken() {
    let mut jar = BrowserCookies::default();
    jar.set_document_cookie(PAGE, "a=1; Expires=Thu, 01 Jan 1970 00:00:00 GMT; Path=/");
    assert_eq!(jar.document_cookies(PAGE), "");
    jar.set_document_cookie(PAGE, "a=1; Path=/");
    jar.set_document_cookie(PAGE, "a=2; Expires=Thu, 01 Jan 1970 00:00:00 GMT; Path=/");
    assert_eq!(jar.document_cookies(PAGE), "");
}

#[test]
fn http_only_cookies_go_by_every_scheme_that_begins_like_http() {
    let mut jar = BrowserCookies::default();
    jar.set_cookies(
        "http://www.example.com/",
        &vec![String::from("sid=1; HttpOnly; Path=/")],
    );
    assert_eq!(jar.cookies("httpx://www.example.com/"), Some(String::from("sid=1")));
    assert_eq!(jar.cookies("ftp://www.example.com/"), None);
    assert_eq!(jar.document_cookies("httpx://www.example.com/"), "");
}

#[test]
fn only_scripts_spare_what_is_there() {
    assert!(spares_existing(false, Some(Some(true))));
    assert!(!spares_existing(true, Some(Some(true))));
    for existing in [None, Some(None), Some(Some(false))] {
        assert!(!spares_existing(false, existing));
        assert!(!spares_existing(true, existing));
    }
}

#[test]
fn cookies_go_by_host_and_path_off_the_web_too() {
    let mut jar = BrowserCookies::default();
    jar.set_cookies(
        PAGE,
        &vec![
            String::from("wide=1; Domain=example.com; Path=/dir"),
            String::from("safe=2; Secure; Path=/"),
        ],
    );
    assert_eq!(jar.cookies("ftp://other.example.com/dir/x"), Some(String::from("wide=1")));
    assert_eq!(jar.cookies("odd://example.com/dir"), Some(String::from("wide=1")));
    assert_eq!(jar.cookies("odd://example.com/"), None);
    assert_eq!(jar.cookies("odd://example.org/dir"), None);
    assert_eq!(jar.cookies("odd:example.com/dir"), None);
    jar.set_cookies("http://1.2.3.4/", &vec![String::from("own=1; Path=/")]);
    assert_eq!(jar.cookies("odd://1.2.3.4/"), Some(String::from("own=1")));
}

#[test]
fn encoded_domains_are_looked_under_too() {
    let mut jar = BrowserCookies::default();
    let page = "https://www.b\u{fc}cher.example/";
    jar.set_document_cookie(page, "a=1; Domain=b\u{fc}cher.example; Path=/");
    assert_eq!(jar.document_cookies(page), "a=1");
    assert_eq!(jar.document_cookies("https://xn--bcher-kva.example/"), "a=1");
}

fn cookie(name: &str, scope: CookieScope) -> ParsedCookie {
    let (host_only, domain) = match scope {
        CookieScope::HostOnly(domain) => (true, domain),
        CookieScope::Suffix(domain) => (false, domain),
    };
    ParsedCookie {
        name: String::from(name),
        value: String::from("1"),
        http_only: None,
        secure: None,
        domain_attribute: None,
        path_attribute: None,
        domain: Some(domain),
        host_only,
        path: String::from("/"),
        persistent: false,
        max_age: None,
    }
}

#[test]
fn cookies_are_judged_by_origin_and_attributes() {
    let https = PageUrl::parse("https://example.com/").unwrap();
    let http = PageUrl::parse("http://example.com/").unwrap();
    let host = || CookieScope::HostOnly(String::from("example.com"));
    let suffix = || CookieScope::Suffix(String::from("example.com"));

    assert_eq!(judge_cookie(&http, &cookie("a", host()), false, false), Some(host()));
    assert_eq!(judge_cookie(&http, &cookie("a", suffix()), false, false), Some(suffix()));
    assert_eq!(judge_cookie(&http, &cookie("a", suffix()), true, false), Some(host()));
    let other = CookieScope::Suffix(String::from("com"));
    assert_eq!(judge_cookie(&http, &cookie("a", other), true, false), None);
    let nowhere = ParsedCookie { domain: None, ..cookie("a", host()) };
    assert_eq!(judge_cookie(&http, &nowhere, false, true), None);

    let hidden = ParsedCookie { http_only: Some(true), ..cookie("a", host()) };
    assert_eq!(judge_cookie(&http, &hidden, false, false), None);
    assert_eq!(judge_cookie(&http, &hidden, false, true), Some(host()));

    let secure = |name: &str| ParsedCookie { secure: Some(true), ..cookie(name, host()) };
    assert_eq!(judge_cookie(&http, &secure("a"), false, true), None);
    assert_eq!(judge_cookie(&https, &secure("a"), false, true), Some(host()));
    assert_eq!(judge_cookie(&https, &secure("__Secure-a"), false, true), Some(host()));
    assert_eq!(judge_cookie(&https, &cookie("__Secure-a", host()), false, true), None);
    assert_eq!(judge_cookie(&https, &secure("__Host-a"), false, true), None);
    let rooted = ParsedCookie {
        path_attribute: Some(String::from("/")),
        ..secure("__Host-a")
    };
    assert_eq!(judge_cookie(&https, &rooted, false, true), Some(host()));
    let loopback = PageUrl::parse("http://[::1]/").unwrap();
    assert_eq!(judge_cookie(&loopback, &secure("a"), false, true), Some(host()));
}
