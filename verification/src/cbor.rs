//! The default wire format of values: CBOR, as serde_cbor writes and reads it.
//!
//! Only what the library itself exchanges is handled here: text, and small
//! tuples of byte strings. Arguments and results of service methods are
//! serialized by the skeletons and proxies of each service trait.

use vstd::prelude::*;

verus! {

/// The error of serde_cbor, taken as it is.
#[verifier::external_type_specification]
#[verifier::external_body]
pub struct ExCborError(serde_cbor::Error);

/// The text that `data` holds as one CBOR value with nothing behind it, as
/// serde_cbor reads a `String`; `None` where it reads none.
pub uninterp spec fn cbor_text(data: Seq<u8>) -> Option<Seq<char>>;

/// The bytes that serde_cbor writes for a string with this text.
pub uninterp spec fn cbor_of_text(text: Seq<char>) -> Seq<u8>;

/// The pair of byte vectors that `data` holds as one CBOR value with
/// nothing behind it, as serde_cbor reads a `(Vec<u8>, Vec<u8>)`.
pub uninterp spec fn cbor_bytes_pair(data: Seq<u8>) -> Option<(Seq<u8>, Seq<u8>)>;

/// The byte vector that `data` holds as one CBOR value with nothing behind
/// it, as serde_cbor reads a `(Vec<u8>,)`.
pub uninterp spec fn cbor_bytes_single(data: Seq<u8>) -> Option<Seq<u8>>;

/// The integer that `data` holds as one CBOR value with nothing behind it,
/// as serde_cbor reads an `i32`.
pub uninterp spec fn cbor_i32(data: Seq<u8>) -> Option<i32>;

/// The flag and the two texts that `data` holds as one CBOR value with
/// nothing behind it, as serde_cbor reads a `(bool, String, String)`.
pub uninterp spec fn cbor_flag_and_texts(data: Seq<u8>) -> Option<(bool, Seq<char>, Seq<char>)>;

/// The bytes that serde_cbor writes for a flag and two texts as a tuple of
/// three.
pub uninterp spec fn cbor_of_flag_and_texts(flag: bool, first: Seq<char>, second: Seq<char>) -> Seq<
    u8,
>;

/// Calls `serde_cbor::from_slice` for a `(bool, String, String)`. What comes
/// back is named by `cbor_flag_and_texts`.
#[verifier::external_body]
fn read_flag_and_texts(data: &[u8]) -> (result: Result<(bool, String, String), serde_cbor::Error>)
    ensures
        result matches Ok(read) ==> cbor_flag_and_texts(data@) == Some((read.0, read.1@, read.2@)),
        result is Err ==> cbor_flag_and_texts(data@) is None,
{
    serde_cbor::from_slice::<(bool, String, String)>(data)
}

/// Calls `serde_cbor::to_vec` on a tuple of a flag and two texts. It writes to
/// a vector, which takes every byte: it succeeds, with the bytes named here.
#[verifier::external_body]
fn write_flag_and_texts(flag: bool, first: &str, second: &str) -> (result: Result<
    Vec<u8>,
    serde_cbor::Error,
>)
    ensures
        result is Ok && result->Ok_0@ == cbor_of_flag_and_texts(flag, first@, second@),
{
    serde_cbor::to_vec(&(flag, first, second))
}

/// Calls `serde_cbor::from_slice` for an `i32`. What comes back is named by
/// `cbor_i32`.
#[verifier::external_body]
fn read_i32(data: &[u8]) -> (result: Result<i32, serde_cbor::Error>)
    ensures
        result matches Ok(value) ==> cbor_i32(data@) == Some(value),
        result is Err ==> cbor_i32(data@) is None,
{
    serde_cbor::from_slice::<i32>(data)
}

/// Calls `serde_cbor::from_slice` for a `String`. What comes back is named
/// by `cbor_text`: the text on success, nothing on an error.
#[verifier::external_body]
fn read_text(data: &[u8]) -> (result: Result<String, serde_cbor::Error>)
    ensures
        result matches Ok(text) ==> cbor_text(data@) == Some(text@),
        result is Err ==> cbor_text(data@) is None,
{
    serde_cbor::from_slice::<String>(data)
}

/// Calls `serde_cbor::to_vec` on a string. It writes to a vector, which takes
/// every byte: it succeeds, with the bytes named by `cbor_of_text`.
#[verifier::external_body]
fn write_text(text: &str) -> (result: Result<Vec<u8>, serde_cbor::Error>)
    ensures
        result is Ok && result->Ok_0@ == cbor_of_text(text@),
{
    serde_cbor::to_vec(&text)
}

/// Calls `serde_cbor::from_slice` for a `(Vec<u8>, Vec<u8>)`. What comes
/// back is named by `cbor_bytes_pair`.
#[verifier::external_body]
fn read_bytes_pair(data: &[u8]) -> (result: Result<(Vec<u8>, Vec<u8>), serde_cbor::Error>)
    ensures
        result matches Ok(pair) ==> cbor_bytes_pair(data@) == Some((pair.0@, pair.1@)),
        result is Err ==> cbor_bytes_pair(data@) is None,
{
    serde_cbor::from_slice::<(Vec<u8>, Vec<u8>)>(data)
}

/// Calls `serde_cbor::from_slice` for a `(Vec<u8>,)`. What comes back is
/// named by `cbor_bytes_single`.
#[verifier::external_body]
fn read_bytes_single(data: &[u8]) -> (result: Result<(Vec<u8>,), serde_cbor::Error>)
    ensures
        result matches Ok(single) ==> cbor_bytes_single(data@) == Some(single.0@),
        result is Err ==> cbor_bytes_single(data@) is None,
{
    serde_cbor::from_slice::<(Vec<u8>,)>(data)
}

/// The default serialization format.
pub struct Cbor;

impl Cbor {
    /// Reads a text from its CBOR form.
    pub fn text_from_slice(data: &[u8]) -> (result: Result<String, ()>)
        ensures
            result is Ok <==> cbor_text(data@) is Some,
            result matches Ok(text) ==> cbor_text(data@) == Some(text@),
    {
        match read_text(data) {
            Ok(text) => Ok(text),
            Err(_) => Err(()),
        }
    }

    /// Writes a text in its CBOR form.
    pub fn text_to_vec(text: &str) -> (result: Result<Vec<u8>, ()>)
        ensures
            result matches Ok(data) && data@ == cbor_of_text(text@),
    {
        match write_text(text) {
            Ok(data) => Ok(data),
            Err(_) => Err(()),
        }
    }

    /// Reads a flag and two texts, sent as a tuple of three, from their CBOR
    /// form.
    pub fn flag_and_texts_from_slice(data: &[u8]) -> (result: Result<(bool, String, String), ()>)
        ensures
            result is Ok <==> cbor_flag_and_texts(data@) is Some,
            result matches Ok(read) ==> cbor_flag_and_texts(data@) == Some(
                (read.0, read.1@, read.2@),
            ),
    {
        match read_flag_and_texts(data) {
            Ok(read) => Ok(read),
            Err(_) => Err(()),
        }
    }

    /// Writes a flag and two texts, as a tuple of three, in their CBOR form.
    pub fn flag_and_texts_to_vec(flag: bool, first: &str, second: &str) -> (result: Result<
        Vec<u8>,
        (),
    >)
        ensures
            result matches Ok(data) && data@ == cbor_of_flag_and_texts(flag, first@, second@),
    {
        match write_flag_and_texts(flag, first, second) {
            Ok(data) => Ok(data),
            Err(_) => Err(()),
        }
    }

    /// Reads a 32-bit integer from its CBOR form.
    pub fn i32_from_slice(data: &[u8]) -> (result: Result<i32, ()>)
        ensures
            result is Ok <==> cbor_i32(data@) is Some,
            result matches Ok(value) ==> cbor_i32(data@) == Some(value),
    {
        match read_i32(data) {
            Ok(value) => Ok(value),
            Err(_) => Err(()),
        }
    }

    /// Reads a pair of byte vectors from its CBOR form.
    pub fn bytes_pair_from_slice(data: &[u8]) -> (result: Result<(Vec<u8>, Vec<u8>), ()>)
        ensures
            result is Ok <==> cbor_bytes_pair(data@) is Some,
            result matches Ok(pair) ==> cbor_bytes_pair(data@) == Some((pair.0@, pair.1@)),
    {
        match read_bytes_pair(data) {
            Ok(pair) => Ok(pair),
            Err(_) => Err(()),
        }
    }

    /// Reads a single byte vector, sent as a tuple of one, from its CBOR form.
    pub fn bytes_single_from_slice(data: &[u8]) -> (result: Result<Vec<u8>, ()>)
        ensures
            result is Ok <==> cbor_bytes_single(data@) is Some,
            result matches Ok(bytes) ==> cbor_bytes_single(data@) == Some(bytes@),
    {
        match read_bytes_single(data) {
            Ok(single) => Ok(single.0),
            Err(_) => Err(()),
        }
    }
}

} // verus!
