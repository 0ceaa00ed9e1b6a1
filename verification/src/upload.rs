//! The upload service's client-facing contract: the request that each class
//! of content is sent as, and how a reply becomes a shareable link.

use vstd::prelude::*;
use vstd::string::StringExecFns;
use crate::snapshot::text_model;

verus! {

/// What is being uploaded; the service knows each kind by a one-letter code.
#[derive(Debug, Clone, Copy, PartialEq, Eq, Structural)]
pub enum UploadKind {
    Image,
    File,
    Link,
    Text,
}

/// How the request body is laid out.
#[derive(Debug, Clone, Copy, PartialEq, Eq, Structural)]
pub enum ContentType {
    /// A JSON object with the fields `payload` and `type`.
    Json,
    /// A multipart form with the fields `type` and `ext` and a binary part `file`.
    Multipart,
}

/// The content of a request: bytes for images and files, a string otherwise.
#[derive(Debug, Clone, PartialEq, Eq)]
pub enum Payload {
    Bytes(Vec<u8>),
    Text(String),
}

/// Mathematical model of a [`Payload`].
pub enum PayloadModel {
    Bytes(Seq<u8>),
    Text(Seq<char>),
}

impl View for Payload {
    type V = PayloadModel;

    open spec fn view(&self) -> PayloadModel {
        match self {
            Payload::Bytes(b) => PayloadModel::Bytes(b@),
            Payload::Text(t) => PayloadModel::Text(t@),
        }
    }
}

/// One outbound request, before it is put on the wire.
#[derive(Debug, Clone, PartialEq, Eq)]
pub struct UploadRequest {
    pub kind: UploadKind,
    pub payload: Payload,
    pub extension: Option<String>,
    pub content_type: ContentType,
}

/// Mathematical model of an [`UploadRequest`].
pub struct RequestModel {
    pub kind: UploadKind,
    pub payload: PayloadModel,
    pub extension: Option<Seq<char>>,
    pub content_type: ContentType,
}

impl View for UploadRequest {
    type V = RequestModel;

    open spec fn view(&self) -> RequestModel {
        RequestModel {
            kind: self.kind,
            payload: self.payload@,
            extension: text_model(self.extension),
            content_type: self.content_type,
        }
    }
}

impl UploadKind {
    /// The code that the service knows this kind by.
    pub open spec fn code(self) -> Seq<char> {
        match self {
            UploadKind::Image => seq!['i'],
            UploadKind::File => seq!['f'],
            UploadKind::Link => seq!['l'],
            UploadKind::Text => seq!['t'],
        }
    }

    /// Images and files travel as bytes in a multipart form.
    pub open spec fn is_binary(self) -> bool {
        self == UploadKind::Image || self == UploadKind::File
    }

    /// The path below the endpoint that requests of this kind are posted to.
    pub open spec fn route(self) -> Seq<char> {
        if self.is_binary() {
            seq!['/', 'u', 'p', 'l', 'o', 'a', 'd']
        } else {
            seq!['/', 'c', 'r', 'e', 'a', 't', 'e']
        }
    }

    /// The file name that the binary part of a multipart request carries.
    pub open spec fn part_name(self) -> Seq<char> {
        if self == UploadKind::Image {
            seq!['i', 'm', 'a', 'g', 'e']
        } else {
            seq!['f', 'i', 'l', 'e']
        }
    }

    pub fn type_code(self) -> (code: &'static str)
        ensures
            code@ == self.code(),
    {
        proof {
            reveal_strlit("i");
            reveal_strlit("f");
            reveal_strlit("l");
            reveal_strlit("t");
        }
        let code = match self {
            UploadKind::Image => "i",
            UploadKind::File => "f",
            UploadKind::Link => "l",
            UploadKind::Text => "t",
        };
        assert(code@ =~= self.code());
        code
    }

    pub fn route_path(self) -> (path: &'static str)
        ensures
            path@ == self.route(),
    {
        proof {
            reveal_strlit("/upload");
            reveal_strlit("/create");
        }
        let path = match self {
            UploadKind::Image | UploadKind::File => "/upload",
            UploadKind::Link | UploadKind::Text => "/create",
        };
        assert(path@ =~= self.route());
        path
    }

    /// The file name that the binary part of a multipart request carries.
    pub fn file_part_name(self) -> (name: &'static str)
        ensures
            name@ == self.part_name(),
    {
        proof {
            reveal_strlit("image");
            reveal_strlit("file");
        }
        let name = match self {
            UploadKind::Image => "image",
            _ => "file",
        };
        assert(name@ =~= self.part_name());
        name
    }
}

/// The multipart field that carries the kind's code.
pub open spec fn kind_field() -> Seq<char> {
    seq!['t', 'y', 'p', 'e']
}

/// The multipart field that carries the extension.
pub open spec fn extension_field() -> Seq<char> {
    seq!['e', 'x', 't']
}

/// The multipart part that carries the bytes.
pub open spec fn file_field() -> Seq<char> {
    seq!['f', 'i', 'l', 'e']
}

/// The name of the multipart field that carries the kind's code.
pub fn kind_field_name() -> (name: &'static str)
    ensures
        name@ == kind_field(),
{
    proof {
        reveal_strlit("type");
    }
    assert("type"@ =~= kind_field());
    "type"
}

/// The name of the multipart field that carries the extension.
pub fn extension_field_name() -> (name: &'static str)
    ensures
        name@ == extension_field(),
{
    proof {
        reveal_strlit("ext");
    }
    assert("ext"@ =~= extension_field());
    "ext"
}

/// The name of the multipart part that carries the bytes.
pub fn file_field_name() -> (name: &'static str)
    ensures
        name@ == file_field(),
{
    proof {
        reveal_strlit("file");
    }
    assert("file"@ =~= file_field());
    "file"
}

impl RequestModel {
    /// Kind, payload, extension and layout agree: bytes with an extension in a
    /// multipart form for images and files, a string without one as JSON
    /// for links and text.
    pub open spec fn wf(self) -> bool {
        if self.kind.is_binary() {
            self.payload is Bytes && self.extension is Some && self.content_type
                == ContentType::Multipart
        } else {
            self.payload is Text && self.extension is None && self.content_type
                == ContentType::Json
        }
    }

    /// The request for an encoded image whose content was sniffed as `sniffed`.
    pub open spec fn image(encoded: Seq<u8>, sniffed: Seq<char>) -> RequestModel {
        RequestModel {
            kind: UploadKind::Image,
            payload: PayloadModel::Bytes(encoded),
            extension: Some(sniffed),
            content_type: ContentType::Multipart,
        }
    }

    /// The request for the bytes of a file with the extension `ext`.
    pub open spec fn file(bytes: Seq<u8>, ext: Seq<char>) -> RequestModel {
        RequestModel {
            kind: UploadKind::File,
            payload: PayloadModel::Bytes(bytes),
            extension: Some(ext),
            content_type: ContentType::Multipart,
        }
    }

    /// The request to shorten a link.
    pub open spec fn link(url: Seq<char>) -> RequestModel {
        RequestModel {
            kind: UploadKind::Link,
            payload: PayloadModel::Text(url),
            extension: None,
            content_type: ContentType::Json,
        }
    }

    /// The request to share a piece of text.
    pub open spec fn text(text: Seq<char>) -> RequestModel {
        RequestModel {
            kind: UploadKind::Text,
            payload: PayloadModel::Text(text),
            extension: None,
            content_type: ContentType::Json,
        }
    }

    /// Where the request is posted to.
    pub open spec fn url(self, endpoint: Seq<char>) -> Seq<char> {
        endpoint + self.kind.route()
    }
}

impl UploadRequest {
    /// The request for an encoded image; `sniffed` is the extension that its
    /// content revealed.
    pub fn image(encoded: Vec<u8>, sniffed: String) -> (r: UploadRequest)
        ensures
            r@ == RequestModel::image(encoded@, sniffed@),
            r@.wf(),
    {
        UploadRequest {
            kind: UploadKind::Image,
            payload: Payload::Bytes(encoded),
            extension: Some(sniffed),
            content_type: ContentType::Multipart,
        }
    }

    /// The request for the bytes of a file; `ext` is the extension of its name.
    pub fn file(bytes: Vec<u8>, ext: String) -> (r: UploadRequest)
        ensures
            r@ == RequestModel::file(bytes@, ext@),
            r@.wf(),
    {
        UploadRequest {
            kind: UploadKind::File,
            payload: Payload::Bytes(bytes),
            extension: Some(ext),
            content_type: ContentType::Multipart,
        }
    }

    /// The request to shorten a link.
    pub fn link(url: String) -> (r: UploadRequest)
        ensures
            r@ == RequestModel::link(url@),
            r@.wf(),
    {
        UploadRequest {
            kind: UploadKind::Link,
            payload: Payload::Text(url),
            extension: None,
            content_type: ContentType::Json,
        }
    }

    /// The request to share a piece of text.
    pub fn text(text: String) -> (r: UploadRequest)
        ensures
            r@ == RequestModel::text(text@),
            r@.wf(),
    {
        UploadRequest {
            kind: UploadKind::Text,
            payload: Payload::Text(text),
            extension: None,
            content_type: ContentType::Json,
        }
    }

    /// Where the request is posted to: the endpoint followed by `/upload` for
    /// images and files and by `/create` for links and text.
    pub fn url(&self, endpoint: &str) -> (url: String)
        ensures
            url@ == self@.url(endpoint@),
    {
        String::from_str(endpoint).concat(self.kind.route_path())
    }
}

/// The JSON string literal that `serde_json` writes for `text`: the text in
/// double quotes, with the characters that JSON reserves escaped.
pub uninterp spec fn json_string_literal(text: Seq<char>) -> Seq<char>;

/// A character that JSON writes as it stands: no double quote, no backslash
/// and no control character below U+0020.
pub open spec fn is_plain_char(c: char) -> bool {
    c != '"' && c != '\\' && c as u32 >= 0x20
}

/// Text that JSON writes as it stands.
pub open spec fn is_plain_json(text: Seq<char>) -> bool {
    forall|i: int| 0 <= i < text.len() ==> is_plain_char(#[trigger] text[i])
}

/// `text` between two double quotes.
pub open spec fn quoted(text: Seq<char>) -> Seq<char> {
    seq!['"'] + text + seq!['"']
}

/// Formats `serde_json::Value::String(text)` through its `Display` impl, which
/// serialises the value in compact form. The output depends on the text alone
/// and is what [`json_string_literal`] names. The serialiser escapes the
/// double quote, the backslash and the bytes below 0x20 and nothing else, so
/// text without them comes back unchanged between two double quotes.
#[verifier::external_body]
fn json_quote(text: &str) -> (literal: String)
    ensures
        literal@ == json_string_literal(text@),
        is_plain_json(text@) ==> literal@ == quoted(text@),
{
    serde_json::Value::String(text.to_string()).to_string()
}

/// The body of a JSON request: an object whose `payload` is the given string
/// literal and whose `type` is the kind's code.
pub open spec fn framed_body(literal: Seq<char>, code: Seq<char>) -> Seq<char> {
    "{\"payload\":"@ + literal + ",\"type\":\""@ + code + "\"}"@
}

/// Frames a JSON request body round a payload that is already a JSON string
/// literal.
pub fn frame_body(literal: &str, kind: UploadKind) -> (body: String)
    ensures
        body@ == framed_body(literal@, kind.code()),
{
    let mut body = String::from_str("{\"payload\":");
    body.append(literal);
    body.append(",\"type\":\"");
    body.append(kind.type_code());
    body.append("\"}");
    body
}

impl RequestModel {
    /// The JSON body of a request whose payload is a string.
    pub open spec fn json_body(self) -> Option<Seq<char>> {
        match self.payload {
            PayloadModel::Text(text) => Some(
                framed_body(json_string_literal(text), self.kind.code()),
            ),
            PayloadModel::Bytes(_) => None,
        }
    }
}

impl UploadRequest {
    /// The JSON body to post, for a request whose payload is a string; `None`
    /// for one that carries bytes, which travels as a multipart form.
    pub fn json_body(&self) -> (body: Option<String>)
        ensures
            match body {
                Some(b) => self@.json_body() == Some(b@),
                None => self@.json_body() is None,
            },
            self@.payload matches PayloadModel::Text(text) ==> (is_plain_json(text) ==> text_model(
                body,
            ) == Some(framed_body(quoted(text), self@.kind.code()))),
    {
        match &self.payload {
            Payload::Text(text) => {
                let literal = json_quote(text.as_str());
                Some(frame_body(literal.as_str(), self.kind))
            },
            Payload::Bytes(_) => None,
        }
    }
}

/// Why an upload produced no link.
#[derive(Debug, Clone, Copy, PartialEq, Eq, Structural)]
pub enum UploadError {
    /// The request could not be sent or no reply arrived.
    Network,
    /// The service answered with a status outside 200..=299.
    Status(u16),
    /// The reply's body is not valid JSON.
    MalformedJson,
    /// The reply is valid JSON but holds no string under `url`.
    MissingField,
}

impl UploadError {
    /// The service answered, but not as the protocol asks.
    pub open spec fn is_protocol(self) -> bool {
        !(self is Network)
    }
}

/// What came back from the one network call of a run.
#[derive(Debug, Clone, PartialEq, Eq)]
pub enum HttpReply {
    /// Connection failure or timeout.
    Failed,
    /// A reply with its status code and body.
    Received { status: u16, body: String },
}

/// Mathematical model of an [`HttpReply`].
pub enum ReplyModel {
    Failed,
    Received { status: u16, body: Seq<char> },
}

impl View for HttpReply {
    type V = ReplyModel;

    open spec fn view(&self) -> ReplyModel {
        match self {
            HttpReply::Failed => ReplyModel::Failed,
            HttpReply::Received { status, body } => ReplyModel::Received {
                status: *status,
                body: body@,
            },
        }
    }
}

/// The parsed reply: the path of the created resource, to be appended to the
/// endpoint.
#[derive(Debug, Clone, PartialEq, Eq)]
pub struct UploadResponse {
    pub result_url: String,
}

impl View for UploadResponse {
    type V = Seq<char>;

    open spec fn view(&self) -> Seq<char> {
        self.result_url@
    }
}

/// What looking up a string field in a JSON text gives.
#[derive(Debug, Clone, PartialEq, Eq)]
pub enum FieldLookup {
    /// The text is not valid JSON.
    Malformed,
    /// The text is valid JSON, but is no object with a string under the key.
    Missing,
    /// The string under the key.
    Found(String),
}

/// Mathematical model of a [`FieldLookup`].
pub enum LookupModel {
    Malformed,
    Missing,
    Found(Seq<char>),
}

impl View for FieldLookup {
    type V = LookupModel;

    open spec fn view(&self) -> LookupModel {
        match self {
            FieldLookup::Malformed => LookupModel::Malformed,
            FieldLookup::Missing => LookupModel::Missing,
            FieldLookup::Found(s) => LookupModel::Found(s@),
        }
    }
}

/// The error of `serde_json::from_str`, carried as an opaque value.
#[verifier::external_type_specification]
#[verifier::external_body]
pub struct ExJsonError(serde_json::Error);

/// What `serde_json` finds under `key` in `body`: `None` where the body does
/// not parse, `Some(None)` where it parses but is no object with a string
/// under `key`, and the string otherwise.
pub uninterp spec fn json_string_field(body: Seq<char>, key: Seq<char>) -> Option<
    Option<Seq<char>>,
>;

/// Parses `body` with `serde_json::from_str` into a `serde_json::Value`,
/// indexes it by `key` and takes `Value::as_str` of what is there. Indexing
/// gives `Null` for a missing key and for a value that is no object, and
/// `as_str` gives `None` for anything but a string. The outcome depends on the
/// two strings alone and is what [`json_string_field`] names.
#[verifier::external_body]
fn parse_string_field(body: &str, key: &str) -> (r: Result<Option<String>, serde_json::Error>)
    ensures
        match r {
            Ok(Some(s)) => json_string_field(body@, key@) == Some(Some(s@)),
            Ok(None) => json_string_field(body@, key@) == Some(None::<Seq<char>>),
            Err(_) => json_string_field(body@, key@) is None,
        },
{
    let value: serde_json::Value = serde_json::from_str(body)?;
    Ok(value[key].as_str().map(String::from))
}

/// The key under which the service returns the created resource's path.
pub open spec fn result_key() -> Seq<char> {
    seq!['u', 'r', 'l']
}

/// The lookup of the result key in a reply's body.
pub open spec fn body_lookup(body: Seq<char>) -> LookupModel {
    match json_string_field(body, result_key()) {
        None => LookupModel::Malformed,
        Some(None) => LookupModel::Missing,
        Some(Some(s)) => LookupModel::Found(s),
    }
}

/// Looks up the created resource's path in a reply's body.
pub fn lookup_result(body: &str) -> (lookup: FieldLookup)
    ensures
        lookup@ == body_lookup(body@),
{
    proof {
        reveal_strlit("url");
    }
    assert("url"@ =~= result_key());
    match parse_string_field(body, "url") {
        Ok(Some(s)) => FieldLookup::Found(s),
        Ok(None) => FieldLookup::Missing,
        Err(_) => FieldLookup::Malformed,
    }
}

/// A status code that reports success.
pub open spec fn is_success(status: u16) -> bool {
    200 <= status <= 299
}

/// What a reply with the given status means, given the lookup in its body.
pub open spec fn resolved(status: u16, lookup: LookupModel) -> Result<Seq<char>, UploadError> {
    if !is_success(status) {
        Err(UploadError::Status(status))
    } else {
        match lookup {
            LookupModel::Malformed => Err(UploadError::MalformedJson),
            LookupModel::Missing => Err(UploadError::MissingField),
            LookupModel::Found(s) => Ok(s),
        }
    }
}

/// What a reply means.
pub open spec fn interpreted(reply: ReplyModel) -> Result<Seq<char>, UploadError> {
    match reply {
        ReplyModel::Failed => Err(UploadError::Network),
        ReplyModel::Received { status, body } => resolved(status, body_lookup(body)),
    }
}

/// Decides what a reply means from its status and the lookup in its body: a
/// status outside 200..=299 is an error whatever the body holds; otherwise
/// the body must have yielded a string.
pub fn resolve(status: u16, lookup: FieldLookup) -> (r: Result<UploadResponse, UploadError>)
    ensures
        match r {
            Ok(response) => resolved(status, lookup@) == Ok::<Seq<char>, UploadError>(response@),
            Err(e) => resolved(status, lookup@) == Err::<Seq<char>, UploadError>(e),
        },
{
    if status < 200 || status > 299 {
        return Err(UploadError::Status(status));
    }
    match lookup {
        FieldLookup::Malformed => Err(UploadError::MalformedJson),
        FieldLookup::Missing => Err(UploadError::MissingField),
        FieldLookup::Found(s) => Ok(UploadResponse { result_url: s }),
    }
}

/// Interprets the outcome of the network call: a failure to reach the service,
/// a status that reports failure, a body that is not JSON or lacks the result
/// each give their own error; anything else is the response.
pub fn interpret(reply: &HttpReply) -> (r: Result<UploadResponse, UploadError>)
    ensures
        match r {
            Ok(response) => interpreted(reply@) == Ok::<Seq<char>, UploadError>(response@),
            Err(e) => interpreted(reply@) == Err::<Seq<char>, UploadError>(e),
        },
{
    match reply {
        HttpReply::Failed => Err(UploadError::Network),
        HttpReply::Received { status, body } => resolve(*status, lookup_result(body.as_str())),
    }
}

impl UploadResponse {
    /// The shareable link: the endpoint followed by the returned path.
    pub fn link(&self, endpoint: &str) -> (link: String)
        ensures
            link@ == endpoint@ + self@,
    {
        String::from_str(endpoint).concat(self.result_url.as_str())
    }
}

} // verus!
