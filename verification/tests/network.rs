use encoding_rs::SHIFT_JIS;
use myrica::location::PageUrl;
use myrica::network::{
    answer_data_url, choose_encoding, deliver_resource, header_text, plan_fetch, script_text, succeeded, unless_aborted,
    DataUrlContent, Delivery, FetchPlan, FetchResponse, RequestBody,
};

#[test]
fn shift_jis_http_response_decodes_japanese_without_changing_bytes() {
    let html = "<p>Google 検索にアクセスできない場合はこちら</p>";
    let (bytes, _, errors) = SHIFT_JIS.encode(html);
    assert!(!errors);
    let body = bytes.into_owned();
    let response = FetchResponse {
        final_url: "https://example.com/".into(),
        status: 200,
        content_type: Some("text/html; charset=Shift_JIS".into()),
        body: body.clone(),
    };
    assert_eq!(response.text(), html);
    assert_eq!(response.body, body);
}

#[test]
fn unicode_bom_overrides_header_charset() {
    let response = FetchResponse {
        final_url: "https://example.com/".into(),
        status: 200,
        content_type: Some("text/html; charset=Shift_JIS".into()),
        body: "\u{feff}<p>日本語</p>".as_bytes().to_vec(),
    };
    assert_eq!(response.text(), "<p>日本語</p>");
}

#[test]
fn unknown_or_missing_charset_defaults_to_utf8() {
    for content_type in [None, Some("text/html; charset=unknown".into())] {
        let response = FetchResponse {
            final_url: "https://example.com/".into(),
            status: 200,
            content_type,
            body: "日本語".as_bytes().to_vec(),
        };
        assert_eq!(response.text(), "日本語");
    }
}

fn response(content_type: Option<&str>, body: &[u8]) -> FetchResponse {
    FetchResponse {
        final_url: String::from("https://example.com/"),
        status: 200,
        body: body.to_vec(),
        content_type: content_type.map(String::from),
    }
}

#[test]
fn utf16_marks_decide_over_the_header() {
    assert_eq!(response(Some("text/html; charset=utf-8"), &[0xff, 0xfe, 0x41, 0x00]).text(), "A");
    assert_eq!(response(None, &[0xfe, 0xff, 0x00, 0x41]).text(), "A");
}

#[test]
fn broken_content_types_are_read_as_utf8() {
    assert_eq!(response(Some("nonsense"), "é".as_bytes()).text(), "é");
    assert_eq!(response(Some("text/html"), "é".as_bytes()).text(), "é");
    assert_eq!(response(Some("text/html; charset=latin1"), &[0xe9]).text(), "é");
}

#[test]
fn encodings_are_chosen() {
    assert_eq!(choose_encoding(None), "UTF-8");
    assert_eq!(choose_encoding(Some(String::from("EUC-JP"))), "EUC-JP");
}

fn plan(url: &str) -> FetchPlan {
    plan_fetch(false, &PageUrl::parse(url).unwrap(), RequestBody::Empty)
}

#[test]
fn data_urls_are_answered_at_once() {
    assert_eq!(
        plan("data:text/plain;base64,SGk="),
        FetchPlan::Respond(FetchResponse {
            final_url: String::from("data:text/plain;base64,SGk="),
            status: 200,
            body: b"Hi".to_vec(),
            content_type: Some(String::from("text/plain")),
        })
    );
    assert_eq!(
        plan("data:nothing"),
        FetchPlan::Fail(String::from("invalid data URL: NoComma"))
    );
    assert!(matches!(
        plan("data:text/plain;base64,!!!"),
        FetchPlan::Fail(message) if message.starts_with("invalid data URL payload: ")
    ));
}

#[test]
fn only_the_web_is_asked() {
    let web = PageUrl::parse("https://example.com/").unwrap();
    assert_eq!(plan("https://example.com/"), FetchPlan::Send);
    assert_eq!(plan_fetch(false, &web, RequestBody::Bytes), FetchPlan::Send);
    assert_eq!(
        plan("file:///etc/hosts"),
        FetchPlan::Fail(String::from("unsupported resource URL scheme: file"))
    );
    assert_eq!(
        plan_fetch(false, &web, RequestBody::Form),
        FetchPlan::Fail(String::from("form submission is not implemented yet"))
    );
    assert_eq!(
        plan_fetch(true, &web, RequestBody::Empty),
        FetchPlan::Fail(String::from("request aborted"))
    );
}

#[test]
fn data_is_answered_by_its_content() {
    assert_eq!(
        answer_data_url("data:x", DataUrlContent::BadPayload(String::from("odd"))),
        FetchPlan::Fail(String::from("invalid data URL payload: odd"))
    );
    assert_eq!(
        answer_data_url("data:x", DataUrlContent::BadUrl(String::from("odd"))),
        FetchPlan::Fail(String::from("invalid data URL: odd"))
    );
}

#[test]
fn aborted_requests_fail_whatever_came_back() {
    assert_eq!(unless_aborted(false, Ok(1)), Ok(1));
    assert_eq!(unless_aborted(true, Ok(1)), Err(String::from("request aborted")));
    assert_eq!(
        unless_aborted::<u8>(true, Err(String::from("timeout"))),
        Err(String::from("timeout"))
    );
}

#[test]
fn failed_resources_are_delivered_empty() {
    let answer = response(None, b"abc");
    assert_eq!(
        deliver_resource(String::from("asked"), Ok(answer)),
        Delivery {
            status: 200,
            url: String::from("https://example.com/"),
            body: b"abc".to_vec(),
        }
    );
    assert_eq!(
        deliver_resource(String::from("asked"), Err(String::from("gone"))),
        Delivery { status: 0, url: String::from("asked"), body: Vec::new() }
    );
}

#[test]
fn redirections_count_as_success() {
    assert!(!succeeded(199));
    assert!(succeeded(200));
    assert!(succeeded(399));
    assert!(!succeeded(400));
    assert!(!succeeded(0));
}

#[test]
fn only_scripts_that_are_there_have_a_text() {
    let (bytes, _, _) = SHIFT_JIS.encode("alert('日本語')");
    let answer = |status| FetchResponse {
        final_url: String::from("https://a.test/x.js"),
        status,
        body: bytes.to_vec(),
        content_type: Some(String::from("text/javascript; charset=Shift_JIS")),
    };
    for status in [200, 304, 399] {
        assert_eq!(script_text(Ok(answer(status))), Some(String::from("alert('日本語')")));
    }
    for status in [0, 199, 400, 404, 500] {
        assert_eq!(script_text(Ok(answer(status))), None);
    }
    assert_eq!(script_text(Err(String::from("request aborted"))), None);
}

#[test]
fn headers_are_texts_where_they_are_visible_ascii() {
    assert_eq!(header_text(b"text/html;\tcharset=x ~"), Some(String::from("text/html;\tcharset=x ~")));
    assert_eq!(header_text(b""), Some(String::new()));
    for value in [&b"a\nb"[..], b"\x1f", b"\x7f", b"caf\xc3\xa9", b"\x80"] {
        assert_eq!(header_text(value), None);
    }
}
