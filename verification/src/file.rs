//! Assets, once their bytes have been read.

use vstd::prelude::*;
use vstd::utf8::{encode_utf8, valid_utf8};

verus! {

/// Calls `String::from_utf8`. The contract says what the standard library
/// documents of it: there is a string if and only if the bytes are valid
/// UTF-8, and then the string is made of just these bytes.
#[verifier::external_body]
fn from_utf8(bytes: Vec<u8>) -> (text: Option<String>)
    ensures
        text is Some <==> valid_utf8(bytes@),
        text matches Some(string) ==> encode_utf8(string@) == bytes@,
{
    match String::from_utf8(bytes) {
        Ok(string) => Some(string),
        Err(_) => None,
    }
}

/// The assets of the program.
#[derive(Debug, Default)]
pub struct File {}

impl File {
    /// Makes a string of the bytes of an asset, `bytes` being what reading
    /// the asset gave. There is a string if the asset could be read and
    /// holds valid UTF-8, and none otherwise.
    pub fn load_string(bytes: Option<Vec<u8>>) -> (text: Option<String>)
        ensures
            text is Some <==> (bytes matches Some(bytes) && valid_utf8(bytes@)),
            text matches Some(string) ==> encode_utf8(string@) == bytes->Some_0@,
    {
        match bytes {
            Some(bytes) => from_utf8(bytes),
            None => None,
        }
    }
}

/// The assets of the program, as the consumer reaches them through the game
/// context.
#[derive(Debug, Default)]
pub struct Files {}

impl Files {
    pub fn new() -> Files {
        Files {  }
    }

    /// Makes a string of the bytes of an asset, as [`File::load_string`]
    /// does.
    pub fn load_string(&self, bytes: Option<Vec<u8>>) -> (text: Option<String>)
        ensures
            text is Some <==> (bytes matches Some(bytes) && valid_utf8(bytes@)),
            text matches Some(string) ==> encode_utf8(string@) == bytes->Some_0@,
    {
        File::load_string(bytes)
    }
}

} // verus!
