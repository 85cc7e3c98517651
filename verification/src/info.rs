//! The document that a finished upload leaves behind.

use crate::error::{Failure, UploadError, UploadErrorKind};
use crate::json::{Json, JsonValue};
use vstd::prelude::*;

verus! {

/// Information about an uploaded image: the response document, whole.
#[derive(Debug)]
pub struct UploadInfo {
    json: Json,
}

impl View for UploadInfo {
    type V = JsonValue;

    closed spec fn view(&self) -> JsonValue {
        self.json@
    }
}

impl JsonValue {
    /// The string at `data.link`: absent unless `data` is an object and its
    /// `link` a string.
    pub open spec fn link(self) -> Option<Seq<char>> {
        match self.get("data"@) {
            Some(data) => match data.get("link"@) {
                Some(link) => link.as_str(),
                None => None,
            },
            None => None,
        }
    }
}

impl UploadInfo {
    /// Settles an upload whose response body, `body`, has been put to the JSON
    /// parser with the result `outcome`. A document is wrapped as it is; a
    /// refusal becomes the error that carries the body and the parser's
    /// account of it.
    pub fn from_parsed(body: String, outcome: Result<Json, String>) -> (result: Result<
        UploadInfo,
        UploadError,
    >)
        ensures
            match outcome {
                Ok(doc) => result matches Ok(info) && info@ == doc@,
                Err(why) => result matches Err(e) && e@ == Failure::ResponseBodyInvalidJson(
                    body@,
                    why@,
                ),
            },
    {
        match outcome {
            Ok(doc) => Ok(UploadInfo { json: doc }),
            Err(why) => Err(
                UploadError { kind: UploadErrorKind::ResponseBodyInvalidJson(body, why) },
            ),
        }
    }

    /// The response document, whole.
    pub fn document(&self) -> (doc: &Json)
        ensures
            doc@ == self@,
    {
        &self.json
    }

    /// Returns the link the image was uploaded to, if any.
    pub fn link(&self) -> (link: Option<&str>)
        ensures
            match link {
                Some(url) => self@.link() == Some(url@),
                None => self@.link() is None,
            },
    {
        match self.json.get("data") {
            Some(data) => match data.get("link") {
                Some(link) => link.as_str(),
                None => None,
            },
            None => None,
        }
    }
}

/// A document whose `data` is an object with the string `url` under `link`
/// has that string as its link.
pub proof fn link_is_found(doc: JsonValue, data: JsonValue, url: Seq<char>)
    requires
        doc.get("data"@) == Some(data),
        data.get("link"@) == Some(JsonValue::Text(url)),
    ensures
        doc.link() == Some(url),
{
}

/// A document without a member `data`, or whose `data` is no object, has no
/// link.
pub proof fn link_needs_data_object(doc: JsonValue)
    requires
        match doc.get("data"@) {
            Some(data) => !(data is Object),
            None => true,
        },
    ensures
        doc.link() is None,
{
}

/// A document whose `data.link` is anything but a string has no link.
pub proof fn link_needs_string(doc: JsonValue, data: JsonValue, link: JsonValue)
    requires
        doc.get("data"@) == Some(data),
        data.get("link"@) == Some(link),
        !(link is Text),
    ensures
        doc.link() is None,
{
}

/// A document whose `data` has no member `link` has no link.
pub proof fn link_needs_member(doc: JsonValue, data: JsonValue)
    requires
        doc.get("data"@) == Some(data),
        data.get("link"@) is None,
    ensures
        doc.link() is None,
{
}

} // verus!
