//! The one failure that the store reports, and its message.

use vstd::prelude::*;
use vstd::string::*;
use vstd::utf8::{decode_utf8, valid_utf8};

verus! {

/// Why an operation on the store failed.
#[derive(Debug, PartialEq)]
pub enum MyError {
    /// A strict removal named a key under which nothing was stored.
    NotFound { key: Vec<u8> },
}

/// What `String::from_utf8_lossy` makes of `bytes`: their text, with a
/// replacement character wherever they are not valid UTF-8.
pub uninterp spec fn lossy_text(bytes: Seq<u8>) -> Seq<char>;

/// How a key is shown: as the text it encodes where it is valid UTF-8, and
/// as its lossy reading where it is not.
pub open spec fn key_text(key: Seq<u8>) -> Seq<char> {
    if valid_utf8(key) {
        decode_utf8(key)
    } else {
        lossy_text(key)
    }
}

/// The complaint about a key shown as `name`: a fixed opening, the name, and
/// a closing quote.
pub open spec fn complaint_about(name: Seq<char>) -> Seq<char> {
    "attempted to delete nonexistent key '"@ + name + "'"@
}

/// The message for a failed removal of `key`. Every key has one.
pub open spec fn not_found_message(key: Seq<u8>) -> Seq<char> {
    complaint_about(key_text(key))
}

/// `String::from_utf8_lossy`, made an owned `String`: the lossy reading of
/// `bytes`, which for valid UTF-8 is exactly the text they encode. Not proved.
#[verifier::external_body]
fn lossy_text_of(bytes: &[u8]) -> (text: String)
    ensures
        text@ == lossy_text(bytes@),
        valid_utf8(bytes@) ==> text@ == decode_utf8(bytes@),
{
    String::from_utf8_lossy(bytes).into_owned()
}

/// The complaint about a key that is shown as `name`.
pub fn complaint(name: &str) -> (text: String)
    ensures
        text@ == complaint_about(name@),
{
    let mut text = String::from_str("attempted to delete nonexistent key '");
    text.append(name);
    text.append("'");
    text
}

impl MyError {
    /// The key that the failed operation named.
    pub open spec fn missing_key(&self) -> Seq<u8> {
        match self {
            MyError::NotFound { key } => key@,
        }
    }

    /// The human-readable message of this error, built from the key it
    /// carries. A key that is not valid UTF-8 is shown by its lossy reading.
    pub fn message(&self) -> (text: String)
        ensures
            text@ == not_found_message(self.missing_key()),
    {
        match self {
            MyError::NotFound { key } => {
                let name = lossy_text_of(key.as_slice());
                complaint(name.as_str())
            },
        }
    }
}

} // verus!
