//! What can go wrong with an upload, and how it is put into words.

use crate::text::joined;
use vstd::prelude::*;

verus! {

/// The cause of a failed upload, each with the detail that it carries.
#[derive(Debug)]
pub enum UploadErrorKind {
    /// The request could not be carried out; the transport's own account.
    Hyper(String),
    /// The response body could not be read; the reader's own account.
    Io(String),
    /// The response body is not UTF-8; the decoder's account.
    ResponseBodyInvalidUtf8(String),
    /// The response body is not JSON; the body as text, then the parser's
    /// account.
    ResponseBodyInvalidJson(String, String),
}

/// Error that can happen on image upload.
#[derive(Debug)]
pub struct UploadError {
    pub kind: UploadErrorKind,
}

/// The value of an [`UploadError`]: its cause, with every text as a sequence
/// of characters.
pub enum Failure {
    Hyper(Seq<char>),
    Io(Seq<char>),
    ResponseBodyInvalidUtf8(Seq<char>),
    ResponseBodyInvalidJson(Seq<char>, Seq<char>),
}

/// The sentence for a response body that is not JSON: the body stands in it
/// as it came, character for character, and the parser's account closes it.
pub open spec fn not_json_sentence(body: Seq<char>, detail: Seq<char>) -> Seq<char> {
    "Response body is not valid json. body: "@ + body + ", err: "@ + detail
}

/// The sentence for a response body that is not JSON holds the body
/// unchanged, right after its opening words, and ends with the parser's
/// account.
pub proof fn not_json_sentence_holds_body(body: Seq<char>, detail: Seq<char>)
    ensures
        ({
            let sentence = not_json_sentence(body, detail);
            let at = "Response body is not valid json. body: "@.len() as int;
            &&& sentence.subrange(at, at + body.len()) == body
            &&& sentence.subrange(sentence.len() - detail.len(), sentence.len() as int)
                == detail
        }),
{
    let sentence = not_json_sentence(body, detail);
    let at = "Response body is not valid json. body: "@.len() as int;
    assert(sentence.subrange(at, at + body.len()) =~= body);
    assert(sentence.subrange(sentence.len() - detail.len(), sentence.len() as int) =~= detail);
}

impl Failure {
    /// The sentence that describes the failure, detail included.
    pub open spec fn message(self) -> Seq<char> {
        match self {
            Failure::Hyper(detail) => "Hyper error: "@ + detail,
            Failure::Io(detail) => "I/O error: "@ + detail,
            Failure::ResponseBodyInvalidUtf8(detail) => "Response body is not valid utf-8: "@
                + detail,
            Failure::ResponseBodyInvalidJson(body, detail) => not_json_sentence(body, detail),
        }
    }
}

/// Puts the sentence for a response body that is not JSON together, from the
/// body and the parser's account.
pub fn not_json_message(body: &str, detail: &str) -> (text: String)
    ensures
        text@ == not_json_sentence(body@, detail@),
{
    let mut text = joined("Response body is not valid json. body: ", body);
    text.append(", err: ");
    text.append(detail);
    text
}

impl View for UploadErrorKind {
    type V = Failure;

    open spec fn view(&self) -> Failure {
        match self {
            UploadErrorKind::Hyper(detail) => Failure::Hyper(detail@),
            UploadErrorKind::Io(detail) => Failure::Io(detail@),
            UploadErrorKind::ResponseBodyInvalidUtf8(detail) => Failure::ResponseBodyInvalidUtf8(
                detail@,
            ),
            UploadErrorKind::ResponseBodyInvalidJson(body, detail) =>
                Failure::ResponseBodyInvalidJson(body@, detail@),
        }
    }
}

impl View for UploadError {
    type V = Failure;

    open spec fn view(&self) -> Failure {
        self.kind@
    }
}

impl UploadError {
    /// A short name for every upload error, whatever its cause.
    pub fn description(&self) -> (text: &'static str)
        ensures
            text@ == "Image upload error"@,
    {
        "Image upload error"
    }

    /// The failure in words: what went wrong, then the detail. The body of a
    /// response that is not JSON stands in the sentence unchanged.
    pub fn message(&self) -> (text: String)
        ensures
            text@ == self@.message(),
    {
        match &self.kind {
            UploadErrorKind::Hyper(detail) => joined("Hyper error: ", detail.as_str()),
            UploadErrorKind::Io(detail) => joined("I/O error: ", detail.as_str()),
            UploadErrorKind::ResponseBodyInvalidUtf8(detail) => joined(
                "Response body is not valid utf-8: ",
                detail.as_str(),
            ),
            UploadErrorKind::ResponseBodyInvalidJson(body, detail) => not_json_message(
                body.as_str(),
                detail.as_str(),
            ),
        }
    }
}

} // verus!
