//! From what was fetched for a feed to the feed's text.
//!
//! Fetching is the caller's part: one request for a URL, one read for a file.
//! This module judges what came back.

use vstd::prelude::*;
use vstd::utf8::{decode_utf8, valid_utf8};
use crate::feed::Feed;

verus! {

/// Why no text was obtained for a feed.
#[derive(Clone, Copy, Debug, PartialEq, Eq, Structural)]
pub enum LoadError {
    /// The request failed, or was answered with a status other than 200.
    NetworkError,
    /// The body of the answer is not UTF-8.
    EncodingError,
    /// The file is missing or could not be read.
    IoError,
}

/// What the caller got when it fetched a feed.
#[derive(Debug, PartialEq, Eq)]
pub enum Fetched {
    /// The answer to a request.
    Response { status_code: i32, body: Vec<u8> },
    /// The whole content of a file.
    File { text: String },
    /// Nothing: the request or the read failed.
    Failed,
}

/// `String::from_utf8`: the text that the bytes encode, if they are UTF-8.
#[verifier::external_body]
fn text_of_bytes(bytes: Vec<u8>) -> (text: Option<String>)
    ensures
        text is Some <==> valid_utf8(bytes@),
        text matches Some(t) ==> t@ == decode_utf8(bytes@),
{
    String::from_utf8(bytes).ok()
}

/// The text that a fetch gives for a feed, or the reason why it gives none.
///
/// A URL wants an answer with status 200 and a UTF-8 body; a path wants the
/// content of a file. Anything else is a failure of the feed's own kind.
pub open spec fn loaded(feed: Feed, fetched: Fetched) -> Result<Seq<char>, LoadError> {
    match feed {
        Feed::Url(_) => match fetched {
            Fetched::Response { status_code, body } => if status_code != 200 {
                Err(LoadError::NetworkError)
            } else if !valid_utf8(body@) {
                Err(LoadError::EncodingError)
            } else {
                Ok(decode_utf8(body@))
            },
            _ => Err(LoadError::NetworkError),
        },
        Feed::Path(_) => match fetched {
            Fetched::File { text } => Ok(text@),
            _ => Err(LoadError::IoError),
        },
    }
}

/// The view of a text that may be an error.
pub open spec fn loaded_view(text: Result<String, LoadError>) -> Result<Seq<char>, LoadError> {
    match text {
        Ok(t) => Ok(t@),
        Err(e) => Err(e),
    }
}

/// Judges what was fetched for `feed`, and gives the feed's text.
pub fn load(feed: &Feed, fetched: Fetched) -> (text: Result<String, LoadError>)
    ensures
        loaded_view(text) == loaded(*feed, fetched),
{
    match feed {
        Feed::Url(_) => match fetched {
            Fetched::Response { status_code, body } => {
                if status_code != 200 {
                    return Err(LoadError::NetworkError);
                }
                match text_of_bytes(body) {
                    Some(text) => Ok(text),
                    None => Err(LoadError::EncodingError),
                }
            },
            _ => Err(LoadError::NetworkError),
        },
        Feed::Path(_) => match fetched {
            Fetched::File { text } => Ok(text),
            _ => Err(LoadError::IoError),
        },
    }
}

} // verus!
