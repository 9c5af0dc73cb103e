//! Fetching: which requests go out, what comes back, and what text it is.

use crate::location::{fetches_pages, is_web_scheme, optional_text, PageUrl};
use crate::text::{copy_of, same_text};
use vstd::prelude::*;

verus! {

/// Successful HTTP response passed back to a browser backend.
#[derive(Debug, PartialEq, Eq)]
pub struct FetchResponse {
    pub final_url: String,
    pub status: u16,
    pub body: Vec<u8>,
    pub content_type: Option<String>,
}

/// The value of the `charset` parameter that `mime::Mime` finds in a content
/// type; none where the content type does not parse or has no such parameter.
pub uninterp spec fn mime_charset(content_type: Seq<char>) -> Option<Seq<char>>;

/// Parses the content type as a `mime::Mime` and calls `Mime::get_param` for
/// its `charset` parameter.  The contract names the outcome.
#[verifier::external_body]
fn charset_of(content_type: &str) -> (result: Option<String>)
    ensures
        optional_text(result) == mime_charset(content_type@),
{
    let mime = content_type.parse::<mime::Mime>().ok()?;
    mime.get_param(mime::CHARSET).map(|charset| String::from(charset.as_str()))
}

/// The name of the encoding that `encoding_rs::Encoding::for_label` finds for a
/// label.
pub uninterp spec fn labelled_encoding(label: Seq<char>) -> Option<Seq<char>>;

/// Calls `encoding_rs::Encoding::for_label` and returns the name of the
/// encoding.  The contract names the outcome and claims two things of it: the
/// name of an encoding is a label of it, and `UTF-8` is the name of one.
#[verifier::external_body]
fn encoding_for_label(label: &str) -> (result: Option<String>)
    ensures
        optional_text(result) == labelled_encoding(label@),
        result matches Some(name) ==> labelled_encoding(name@) == Some(name@),
        label@ == "UTF-8"@ ==> optional_text(result) == Some("UTF-8"@),
{
    encoding_rs::Encoding::for_label(label.as_bytes()).map(|encoding| String::from(encoding.name()))
}

/// The text that `Encoding::decode_without_bom_handling` of the encoding with
/// the given name makes of the bytes.
pub uninterp spec fn decoded(encoding: Seq<char>, bytes: Seq<u8>) -> Seq<char>;

/// Whether the bytes begin with the given mark.
pub open spec fn has_mark(bytes: Seq<u8>, mark: Seq<u8>) -> bool {
    mark.len() <= bytes.len() && bytes.take(mark.len() as int) == mark
}

/// The byte order mark of UTF-8.
pub open spec fn utf8_mark() -> Seq<u8> {
    seq![0xefu8, 0xbbu8, 0xbfu8]
}

/// The byte order mark of little-endian UTF-16.
pub open spec fn utf16le_mark() -> Seq<u8> {
    seq![0xffu8, 0xfeu8]
}

/// The byte order mark of big-endian UTF-16.
pub open spec fn utf16be_mark() -> Seq<u8> {
    seq![0xfeu8, 0xffu8]
}

/// Whether the bytes begin with a byte order mark.
pub open spec fn has_bom(bytes: Seq<u8>) -> bool {
    has_mark(bytes, utf8_mark()) || has_mark(bytes, utf16le_mark()) || has_mark(
        bytes,
        utf16be_mark(),
    )
}

/// The encoding of the bytes: the one of their byte order mark, or else the
/// declared one.
pub open spec fn effective_encoding(declared: Seq<char>, bytes: Seq<u8>) -> Seq<char> {
    if has_mark(bytes, utf8_mark()) {
        "UTF-8"@
    } else if has_mark(bytes, utf16le_mark()) {
        "UTF-16LE"@
    } else if has_mark(bytes, utf16be_mark()) {
        "UTF-16BE"@
    } else {
        declared
    }
}

/// The bytes after their byte order mark.
pub open spec fn without_bom(bytes: Seq<u8>) -> Seq<u8> {
    if has_mark(bytes, utf8_mark()) {
        bytes.skip(3)
    } else if has_mark(bytes, utf16le_mark()) || has_mark(bytes, utf16be_mark()) {
        bytes.skip(2)
    } else {
        bytes
    }
}

/// The text of a body in a declared encoding, a byte order mark taking
/// priority.
pub open spec fn decoded_body(declared: Seq<char>, bytes: Seq<u8>) -> Seq<char> {
    decoded(effective_encoding(declared, bytes), without_bom(bytes))
}

/// The longest body whose text is sure to fit into memory: every byte may
/// become three, in a buffer that may once be doubled.
pub const MAX_TEXT_BYTES: usize = usize::MAX / 16;

/// Calls `encoding_rs::Encoding::decode` of the encoding with the given name:
/// a byte order mark decides over that encoding and is not part of the text.
/// What an encoding makes of the bytes is named, but for the valid UTF-8 that
/// comes out as it went in.
#[verifier::external_body]
fn decode_bytes(encoding: &str, bytes: &[u8]) -> (result: String)
    requires
        labelled_encoding(encoding@) == Some(encoding@),
        bytes@.len() <= MAX_TEXT_BYTES,
    ensures
        result@ == decoded(effective_encoding(encoding@, bytes@), without_bom(bytes@)),
        effective_encoding(encoding@, bytes@) == "UTF-8"@ && vstd::utf8::valid_utf8(
            without_bom(bytes@),
        ) ==> result@ == vstd::utf8::decode_utf8(without_bom(bytes@)),
{
    let encoding = encoding_rs::Encoding::for_label(encoding.as_bytes()).unwrap();
    encoding.decode(bytes).0.into_owned()
}

/// The encoding that a response is declared to be in: UTF-8 where no known one
/// is declared.
pub open spec fn declared_encoding(labelled: Option<Seq<char>>) -> Seq<char> {
    match labelled {
        Some(name) => name,
        None => "UTF-8"@,
    }
}

/// The encoding that a content type declares, as far as it is a known one.
pub open spec fn content_encoding(content_type: Option<Seq<char>>) -> Option<Seq<char>> {
    match content_type {
        Some(value) => match mime_charset(value) {
            Some(charset) => labelled_encoding(charset),
            None => None,
        },
        None => None,
    }
}

/// Choose the encoding to decode a response by.
pub fn choose_encoding(labelled: Option<String>) -> (result: String)
    ensures
        result@ == declared_encoding(optional_text(labelled)),
{
    match labelled {
        Some(name) => name,
        None => copy_of("UTF-8"),
    }
}

impl FetchResponse {
    /// Decode text using the HTTP charset, with a Unicode BOM taking priority.
    /// Binary resources retain their original bytes for their own decoders.
    pub fn text(&self) -> (result: String)
        requires
            self.body@.len() <= MAX_TEXT_BYTES,
        ensures
            result@ == decoded_body(
                declared_encoding(content_encoding(optional_text(self.content_type))),
                self.body@,
            ),
            effective_encoding(
                declared_encoding(content_encoding(optional_text(self.content_type))),
                self.body@,
            ) == "UTF-8"@ && vstd::utf8::valid_utf8(without_bom(self.body@)) ==> result@
                == vstd::utf8::decode_utf8(without_bom(self.body@)),
    {
        let charset = match &self.content_type {
            Some(content_type) => charset_of(content_type.as_str()),
            None => None,
        };
        let labelled = match &charset {
            Some(charset) => encoding_for_label(charset.as_str()),
            None => None,
        };
        // Looked up for its own sake: the name of an encoding is a label of it.
        let fallback = encoding_for_label("UTF-8");
        assert(fallback is Some);
        let encoding = choose_encoding(labelled);
        decode_bytes(encoding.as_str(), self.body.as_slice())
    }
}

/// A byte order mark decides over whatever the response declares.
pub proof fn byte_order_mark_takes_priority(
    first: Option<Seq<char>>,
    second: Option<Seq<char>>,
    body: Seq<u8>,
)
    requires
        has_bom(body),
    ensures
        decoded_body(declared_encoding(first), body) == decoded_body(
            declared_encoding(second),
            body,
        ),
{
}

/// A response without a content type, with one that names no charset, and with
/// one that names an unknown charset are all read as UTF-8.
pub proof fn unknown_charset_means_utf8(content_type: Option<Seq<char>>)
    requires
        content_type matches Some(value) ==> mime_charset(value) matches Some(charset)
            ==> labelled_encoding(charset) is None,
    ensures
        declared_encoding(content_encoding(content_type)) == "UTF-8"@,
{
}

/// What a `data:` URL holds, or what is wrong with it.
#[derive(Debug, PartialEq, Eq)]
pub enum DataUrlContent {
    /// The bytes and their content type.
    Content(Vec<u8>, String),
    /// It is no `data:` URL.
    BadUrl(String),
    /// Its bytes cannot be decoded.
    BadPayload(String),
}

/// What a `data:` URL holds, as plain values.
pub ghost enum DataUrlParts {
    Content(Seq<u8>, Seq<char>),
    BadUrl(Seq<char>),
    BadPayload(Seq<char>),
}

impl View for DataUrlContent {
    type V = DataUrlParts;

    open spec fn view(&self) -> DataUrlParts {
        match self {
            DataUrlContent::Content(body, content_type) => {
                DataUrlParts::Content(body@, content_type@)
            },
            DataUrlContent::BadUrl(message) => DataUrlParts::BadUrl(message@),
            DataUrlContent::BadPayload(message) => DataUrlParts::BadPayload(message@),
        }
    }
}

/// What `data_url::DataUrl` makes of a URL: the bytes with their content type,
/// or the error of reading the URL, or the error of decoding the bytes.
pub uninterp spec fn data_url_parts(href: Seq<char>) -> DataUrlParts;

/// Calls `data_url::DataUrl::process` and `DataUrl::decode_to_vec`.  The
/// contract names the outcome.
#[verifier::external_body]
fn read_data_url(href: &str) -> (result: DataUrlContent)
    ensures
        result@ == data_url_parts(href@),
{
    match data_url::DataUrl::process(href) {
        Ok(url) => match url.decode_to_vec() {
            Ok((body, _)) => DataUrlContent::Content(body, url.mime_type().to_string()),
            Err(error) => DataUrlContent::BadPayload(format!("{error:?}")),
        },
        Err(error) => DataUrlContent::BadUrl(format!("{error:?}")),
    }
}

/// What a request carries.
#[derive(Clone, Copy, Debug, PartialEq, Eq, Structural)]
pub enum RequestBody {
    Empty,
    Bytes,
    Form,
}

/// What is to be done about a request.
#[derive(Debug, PartialEq, Eq)]
pub enum FetchPlan {
    /// It has been answered without the network.
    Respond(FetchResponse),
    /// It fails with the given message.
    Fail(String),
    /// It goes out over the network.
    Send,
}

/// A response, as plain values.
pub ghost struct ResponseParts {
    pub final_url: Seq<char>,
    pub status: u16,
    pub body: Seq<u8>,
    pub content_type: Option<Seq<char>>,
}

impl View for FetchResponse {
    type V = ResponseParts;

    open spec fn view(&self) -> ResponseParts {
        ResponseParts {
            final_url: self.final_url@,
            status: self.status,
            body: self.body@,
            content_type: optional_text(self.content_type),
        }
    }
}

/// The text of a response.
pub open spec fn response_text(response: ResponseParts) -> Seq<char> {
    decoded_body(declared_encoding(content_encoding(response.content_type)), response.body)
}

/// What is to be done about a request, as plain values.
pub ghost enum PlanParts {
    Respond(ResponseParts),
    Fail(Seq<char>),
    Send,
}

impl View for FetchPlan {
    type V = PlanParts;

    open spec fn view(&self) -> PlanParts {
        match self {
            FetchPlan::Respond(response) => PlanParts::Respond(response@),
            FetchPlan::Fail(message) => PlanParts::Fail(message@),
            FetchPlan::Send => PlanParts::Send,
        }
    }
}

/// The answer to a request for a `data:` URL with the given content.
pub open spec fn data_answer(href: Seq<char>, content: DataUrlParts) -> PlanParts {
    match content {
        DataUrlParts::Content(body, content_type) => PlanParts::Respond(
            ResponseParts {
                final_url: href,
                status: 200,
                body,
                content_type: Some(content_type),
            },
        ),
        DataUrlParts::BadUrl(error) => PlanParts::Fail("invalid data URL: "@ + error),
        DataUrlParts::BadPayload(error) => PlanParts::Fail("invalid data URL payload: "@ + error),
    }
}

/// Answer a request for a `data:` URL with the given content.
pub fn answer_data_url(href: &str, content: DataUrlContent) -> (result: FetchPlan)
    ensures
        result@ == data_answer(href@, content@),
{
    match content {
        DataUrlContent::Content(body, content_type) => FetchPlan::Respond(
            FetchResponse {
                final_url: copy_of(href),
                status: 200,
                body,
                content_type: Some(content_type),
            },
        ),
        DataUrlContent::BadUrl(error) => {
            let mut message = copy_of("invalid data URL: ");
            message.push_str(error.as_str());
            FetchPlan::Fail(message)
        },
        DataUrlContent::BadPayload(error) => {
            let mut message = copy_of("invalid data URL payload: ");
            message.push_str(error.as_str());
            FetchPlan::Fail(message)
        },
    }
}

/// What is to be done about a request, given what its URL would hold as a
/// `data:` URL.
pub open spec fn planned(
    aborted: bool,
    href: Seq<char>,
    scheme: Seq<char>,
    body: RequestBody,
    content: DataUrlParts,
) -> PlanParts {
    if aborted {
        PlanParts::Fail("request aborted"@)
    } else if scheme == "data"@ {
        data_answer(href, content)
    } else if !is_web_scheme(scheme) {
        PlanParts::Fail("unsupported resource URL scheme: "@ + scheme)
    } else if body == RequestBody::Form {
        PlanParts::Fail("form submission is not implemented yet"@)
    } else {
        PlanParts::Send
    }
}

/// Decide what is to be done about a request.
pub fn plan_fetch(aborted: bool, url: &PageUrl, body: RequestBody) -> (result: FetchPlan)
    ensures
        result@ == planned(aborted, url.href@, url.scheme@, body, data_url_parts(url.href@)),
{
    if aborted {
        return FetchPlan::Fail(copy_of("request aborted"));
    }
    if same_text(url.scheme.as_str(), "data") {
        return answer_data_url(url.href.as_str(), read_data_url(url.href.as_str()));
    }
    if !fetches_pages(url.scheme.as_str()) {
        let mut message = copy_of("unsupported resource URL scheme: ");
        message.push_str(url.scheme.as_str());
        return FetchPlan::Fail(message);
    }
    match body {
        RequestBody::Form => FetchPlan::Fail(copy_of("form submission is not implemented yet")),
        RequestBody::Empty | RequestBody::Bytes => FetchPlan::Send,
    }
}

/// What a step of a request that went out over the network comes to: a request
/// that was aborted meanwhile has failed, whatever came back.
pub fn unless_aborted<T>(aborted: bool, outcome: Result<T, String>) -> (result: Result<T, String>)
    ensures
        outcome is Err ==> result == outcome,
        outcome is Ok && !aborted ==> result == outcome,
        outcome is Ok && aborted ==> (result matches Err(message) && message@
            == "request aborted"@),
{
    match outcome {
        Ok(value) => if aborted {
            Err(copy_of("request aborted"))
        } else {
            Ok(value)
        },
        Err(message) => Err(message),
    }
}

/// A resource as a document takes it.
#[derive(Debug, PartialEq, Eq)]
pub struct Delivery {
    pub status: u16,
    pub url: String,
    pub body: Vec<u8>,
}

/// What a document gets for a resource that it asked for.  A failure is
/// delivered as an empty response, so that the document does not wait for it
/// for ever.
pub fn deliver_resource(requested_url: String, outcome: Result<FetchResponse, String>) -> (result:
    Delivery)
    ensures
        outcome matches Ok(response) ==> result == (Delivery {
            status: response.status,
            url: response.final_url,
            body: response.body,
        }),
        outcome is Err ==> result.status == 0 && result.url == requested_url && result.body@
            == Seq::<u8>::empty(),
{
    match outcome {
        Ok(response) => Delivery {
            status: response.status,
            url: response.final_url,
            body: response.body,
        },
        Err(_) => Delivery { status: 0, url: requested_url, body: Vec::new() },
    }
}

/// Whether a byte of a header stands for a visible character or for white space
/// between them.
pub open spec fn is_text_byte(byte: u8) -> bool {
    byte == 9 || 32 <= byte < 127
}

/// The value of a header as a text, where it is one: visible ASCII characters,
/// spaces and tabs.
pub fn header_text(bytes: &[u8]) -> (result: Option<String>)
    ensures
        result is Some <==> forall|i: int|
            0 <= i < bytes@.len() ==> is_text_byte(#[trigger] bytes@[i]),
        result matches Some(text) ==> text@ == bytes@.map_values(|byte: u8| byte as char),
{
    let mut text = String::new();
    let mut i: usize = 0;
    while i < bytes.len()
        invariant
            i <= bytes.len(),
            text@ == bytes@.take(i as int).map_values(|byte: u8| byte as char),
            forall|j: int| 0 <= j < i ==> is_text_byte(#[trigger] bytes@[j]),
        decreases bytes.len() - i,
    {
        let byte: u8 = bytes[i];
        if byte != 9 && (byte < 32 || byte >= 127) {
            return None;
        }
        text.push(byte as char);
        assert(bytes@.take(i + 1) =~= bytes@.take(i as int).push(byte));
        i += 1;
        assert(text@ =~= bytes@.take(i as int).map_values(|byte: u8| byte as char));
    }
    assert(bytes@.take(i as int) =~= bytes@);
    Some(text)
}

/// Whether a status says that the page or script is there.
pub open spec fn is_success(status: u16) -> bool {
    200 <= status < 400
}

/// Whether a status says that the page or script is there.
pub fn succeeded(status: u16) -> (result: bool)
    ensures
        result == is_success(status),
{
    200 <= status && status < 400
}

/// The text of a script, from the outcome of its request; there is none where
/// the script did not arrive or is not there.
pub fn script_text(outcome: Result<FetchResponse, String>) -> (result: Option<String>)
    requires
        outcome matches Ok(response) ==> is_success(response.status) ==> response.body@.len()
            <= MAX_TEXT_BYTES,
    ensures
        result is Some <==> (outcome matches Ok(response) && is_success(response.status)),
        result matches Some(text) ==> text@ == response_text(outcome->Ok_0@),
{
    match outcome {
        Ok(response) => if succeeded(response.status) {
            Some(response.text())
        } else {
            None
        },
        Err(_) => None,
    }
}

/// Requests go out exactly if they are for `http` or `https`, carry no form and
/// have not been aborted.  A request for a `data:` URL is answered by what the
/// URL holds, whatever the request carries; any other fails, and the message
/// says why.
pub proof fn web_requests_are_sent(
    aborted: bool,
    href: Seq<char>,
    scheme: Seq<char>,
    body: RequestBody,
    content: DataUrlParts,
)
    ensures
        ({
            let plan = planned(aborted, href, scheme, body, content);
            &&& plan is Send <==> !aborted && (scheme == "http"@ || scheme == "https"@) && (body
                == RequestBody::Empty || body == RequestBody::Bytes)
            &&& aborted ==> plan == PlanParts::Fail("request aborted"@)
            &&& !aborted && scheme == "data"@ ==> match content {
                DataUrlParts::Content(bytes, content_type) => {
                    &&& plan matches PlanParts::Respond(response)
                    &&& response.body == bytes
                    &&& response.content_type == Some(content_type)
                    &&& response.status == 200
                    &&& response.final_url == href
                },
                DataUrlParts::BadUrl(error) => plan == PlanParts::Fail(
                    "invalid data URL: "@ + error,
                ),
                DataUrlParts::BadPayload(error) => plan == PlanParts::Fail(
                    "invalid data URL payload: "@ + error,
                ),
            }
            &&& !aborted && scheme != "data"@ && scheme != "http"@ && scheme != "https"@ ==> plan
                == PlanParts::Fail("unsupported resource URL scheme: "@ + scheme)
            &&& !aborted && (scheme == "http"@ || scheme == "https"@) && body == RequestBody::Form
                ==> plan == PlanParts::Fail("form submission is not implemented yet"@)
        }),
{
    reveal_strlit("data");
    reveal_strlit("http");
    reveal_strlit("https");
    assert("data"@[0] != "http"@[0]);
    assert("data"@[0] != "https"@[0]);
}

/// A body with a byte order mark is read by the encoding of the mark, and the
/// mark is no part of the text; any other is read whole, by the encoding that is
/// declared.
pub proof fn marks_tell_the_encoding(declared: Seq<char>, rest: Seq<u8>)
    ensures
        decoded_body(declared, seq![0xefu8, 0xbbu8, 0xbfu8] + rest) == decoded("UTF-8"@, rest),
        decoded_body(declared, seq![0xffu8, 0xfeu8] + rest) == decoded("UTF-16LE"@, rest),
        decoded_body(declared, seq![0xfeu8, 0xffu8] + rest) == decoded("UTF-16BE"@, rest),
        rest.len() < 2 ==> decoded_body(declared, rest) == decoded(declared, rest),
        rest.len() >= 2 && !(rest[0] == 0xff && rest[1] == 0xfe) && !(rest[0] == 0xfe && rest[1]
            == 0xff) && !(rest.len() >= 3 && rest[0] == 0xef && rest[1] == 0xbb && rest[2] == 0xbf)
            ==> decoded_body(declared, rest) == decoded(declared, rest),
{
    let utf8 = seq![0xefu8, 0xbbu8, 0xbfu8] + rest;
    assert(utf8.take(3) =~= seq![0xefu8, 0xbbu8, 0xbfu8]);
    assert(utf8.skip(3) =~= rest);
    let little = seq![0xffu8, 0xfeu8] + rest;
    assert(little.take(2) =~= seq![0xffu8, 0xfeu8]);
    assert(little.skip(2) =~= rest);
    assert(little[0] == 0xff);
    if little.len() >= 3 {
        assert(little.take(3)[0] == 0xff);
        assert(seq![0xefu8, 0xbbu8, 0xbfu8][0] == 0xef);
    }
    let big = seq![0xfeu8, 0xffu8] + rest;
    assert(big.take(2) =~= seq![0xfeu8, 0xffu8]);
    assert(big.skip(2) =~= rest);
    assert(big[0] == 0xfe);
    assert(big.take(2)[0] == 0xfe);
    assert(seq![0xffu8, 0xfeu8][0] == 0xff);
    if big.len() >= 3 {
        assert(big.take(3)[0] == 0xfe);
        assert(seq![0xefu8, 0xbbu8, 0xbfu8][0] == 0xef);
    }
    if has_mark(rest, utf8_mark()) {
        assert(rest.take(3)[0] == 0xef && rest.take(3)[1] == 0xbb && rest.take(3)[2] == 0xbf);
    }
    if has_mark(rest, utf16le_mark()) {
        assert(rest.take(2)[0] == 0xff && rest.take(2)[1] == 0xfe);
    }
    if has_mark(rest, utf16be_mark()) {
        assert(rest.take(2)[0] == 0xfe && rest.take(2)[1] == 0xff);
    }
}

/// A response whose content type names the charset of a known encoding, and that
/// has no byte order mark, is read by that encoding.
pub proof fn known_charsets_are_followed(response: ResponseParts, charset: Seq<char>, name: Seq<char>)
    requires
        response.content_type matches Some(value) && mime_charset(value) == Some(charset),
        labelled_encoding(charset) == Some(name),
        response.body.len() == 0 || response.body[0] < 0xef,
    ensures
        response_text(response) == decoded(name, response.body),
{
    let body = response.body;
    if body.len() >= 2 {
        marks_tell_the_encoding(name, body);
    }
}

/// A response without a content type is read as UTF-8, as long as no byte order
/// mark says otherwise.
pub proof fn undeclared_text_is_utf8(response: ResponseParts)
    requires
        response.content_type is None,
        response.body.len() == 0 || response.body[0] < 0xef,
    ensures
        response_text(response) == decoded("UTF-8"@, response.body),
{
    let body = response.body;
    if body.len() >= 2 {
        marks_tell_the_encoding("UTF-8"@, body);
    }
}

/// A page or script is there exactly if its status is from 200 to 399.
pub proof fn two_and_three_hundreds_succeed(status: u16)
    ensures
        is_success(status) <==> status / 100 == 2 || status / 100 == 3,
{
}

/// The bytes of a header's text are the visible ASCII characters from `!` to `~`,
/// the space and the tab; each of them stands for its own character.
pub proof fn header_texts_are_visible_ascii(byte: u8)
    ensures
        is_text_byte(byte) <==> '!' as u32 <= byte <= '~' as u32 || byte == ' ' as u32 || byte
            == '\t' as u32,
{
}

} // verus!
