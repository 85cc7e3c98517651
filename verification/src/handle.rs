//! The handle to the API: what an upload sends, and what it makes of the
//! answer.

use crate::error::{Failure, UploadError, UploadErrorKind};
use crate::info::UploadInfo;
use crate::json::{parse, parsed, JsonValue};
use crate::text::{decode, joined, utf8_complaint};
use vstd::prelude::*;
use vstd::slice::slice_to_vec;
use vstd::utf8::{decode_utf8, valid_utf8};

verus! {

/// Where every endpoint of the API lives.
pub const API_ROOT: &'static str = "https://api.imgur.com/3/";

/// The address of the endpoint `endpoint`.
pub fn api_url(endpoint: &str) -> (url: String)
    ensures
        url@ == API_ROOT@ + endpoint@,
{
    joined(API_ROOT, endpoint)
}

/// A handle to the imgur API.
pub struct Handle {
    client_id: String,
}

impl View for Handle {
    type V = Seq<char>;

    /// The client ID that the handle was made with.
    closed spec fn view(&self) -> Seq<char> {
        self.client_id@
    }
}

/// One HTTPS request, ready to be sent as it stands.
#[derive(Debug, PartialEq, Eq)]
pub struct Request {
    /// The HTTP method.
    pub method: String,
    /// The address that the request goes to.
    pub url: String,
    /// The headers that the request carries, each a name and a value.
    pub headers: Vec<(String, String)>,
    /// The body, sent without any encoding.
    pub body: Vec<u8>,
}

/// How the exchange that carried a request ended.
#[derive(Debug, PartialEq, Eq)]
pub enum Exchange {
    /// The request could not be carried out; the transport's account of why.
    Unsent(String),
    /// A response came, but its body could not be read; the reader's account
    /// of why.
    Unread(String),
    /// A response came; its body, byte for byte. Its status is not looked at.
    Received(Vec<u8>),
}

impl Exchange {
    /// What an upload that ended in this exchange comes to: the response
    /// document, or the first thing that went wrong.
    pub open spec fn outcome(self) -> Result<JsonValue, Failure> {
        match self {
            Exchange::Unsent(detail) => Err(Failure::Hyper(detail@)),
            Exchange::Unread(detail) => Err(Failure::Io(detail@)),
            Exchange::Received(body) => body_outcome(body@),
        }
    }
}

/// What a response body comes to: it is decoded as UTF-8, then parsed as
/// JSON, and the first of the two that fails decides the error.
pub open spec fn body_outcome(body: Seq<u8>) -> Result<JsonValue, Failure> {
    if valid_utf8(body) {
        match parsed(decode_utf8(body)) {
            Ok(doc) => Ok(doc),
            Err(why) => Err(Failure::ResponseBodyInvalidJson(decode_utf8(body), why)),
        }
    } else {
        Err(Failure::ResponseBodyInvalidUtf8(utf8_complaint(body)))
    }
}

impl Handle {
    /// Create a new handle.
    ///
    /// `client_id` is the client ID required to access the imgur API. Any
    /// string will do, the empty one too.
    pub fn new(client_id: String) -> (handle: Handle)
        ensures
            handle@ == client_id@,
    {
        Handle { client_id }
    }

    /// The request that uploads `data`: a `POST` to the image endpoint whose
    /// one header, `Authorization`, names the client, and whose body is
    /// `data`, unchanged.
    pub fn request(&self, data: &[u8]) -> (request: Request)
        ensures
            request.method@ == "POST"@,
            request.url@ == "https://api.imgur.com/3/image"@,
            request.headers.deep_view() == seq![("Authorization"@, "Client-ID "@ + self@)],
            request.body@ == data@,
    {
        let url = api_url("image");
        proof {
            reveal_strlit("https://api.imgur.com/3/");
            reveal_strlit("image");
            reveal_strlit("https://api.imgur.com/3/image");
            assert(url@ =~= "https://api.imgur.com/3/image"@);
        }
        let mut headers = Vec::new();
        headers.push(
            (String::from_str("Authorization"), joined("Client-ID ", self.client_id.as_str())),
        );
        assert(headers.deep_view() =~= seq![("Authorization"@, "Client-ID "@ + self@)]);
        Request { method: String::from_str("POST"), url, headers, body: slice_to_vec(data) }
    }

    /// Settles an upload from the way its exchange ended.
    ///
    /// A transport failure and an unreadable body are passed on as they are.
    /// A body that was received is decoded as UTF-8 and parsed as JSON: any
    /// document that parses is the upload's result, whatever it says.
    pub fn upload(&self, exchange: Exchange) -> (result: Result<UploadInfo, UploadError>)
        ensures
            match exchange.outcome() {
                Ok(doc) => result matches Ok(info) && info@ == doc,
                Err(failure) => result matches Err(e) && e@ == failure,
            },
            match exchange {
                Exchange::Unsent(_) => result is Err && result->Err_0@ is Hyper,
                Exchange::Unread(_) => result is Err && result->Err_0@ is Io,
                Exchange::Received(body) => {
                    let text = decode_utf8(body@);
                    &&& result is Ok <==> valid_utf8(body@) && parsed(text) is Ok
                    &&& !valid_utf8(body@) ==> result is Err
                        && result->Err_0@ is ResponseBodyInvalidUtf8
                    &&& valid_utf8(body@) && parsed(text) is Err ==> result is Err
                        && result->Err_0@ is ResponseBodyInvalidJson
                        && result->Err_0@->ResponseBodyInvalidJson_0 == text
                },
            },
    {
        match exchange {
            Exchange::Unsent(detail) => Err(UploadError { kind: UploadErrorKind::Hyper(detail) }),
            Exchange::Unread(detail) => Err(UploadError { kind: UploadErrorKind::Io(detail) }),
            Exchange::Received(body) => match decode(body) {
                Ok(text) => {
                    let outcome = parse(text.as_str());
                    UploadInfo::from_parsed(text, outcome)
                },
                Err(why) => Err(
                    UploadError { kind: UploadErrorKind::ResponseBodyInvalidUtf8(why) },
                ),
            },
        }
    }
}

} // verus!
