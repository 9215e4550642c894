//! The metadata record of a container: how the metadata region is unmasked,
//! decoded and decrypted, and what is read from the JSON text it holds.

use base64::Engine;
use vstd::prelude::*;
use vstd::slice::*;
use vstd::string::*;
use vstd::utf8::{decode_utf8, valid_utf8};
use crate::bytes::{masked, xor_bytes};
use crate::cipher::{aes128_to_slice, decrypted, unpad, unpadded};
use crate::error::NcmError;

verus! {

/// The byte that masks every byte of the metadata region.
pub const META_MASK: u8 = 0x63;

/// The length of the vendor tag that stands before the base64 text.
pub const META_TAG_LENGTH: usize = 22;

/// The length of the vendor tag that stands before the JSON text.
pub const JSON_TAG_LENGTH: usize = 6;

#[verifier::external_type_specification]
#[verifier::external_body]
pub struct ExBase64DecodeError(base64::DecodeError);

#[verifier::external_type_specification]
#[verifier::external_body]
pub struct ExFromUtf8Error(std::string::FromUtf8Error);

#[verifier::external_type_specification]
#[verifier::external_body]
pub struct ExJsonValue(serde_json::Value);

#[verifier::external_type_specification]
#[verifier::external_body]
pub struct ExJsonError(serde_json::Error);

/// The bytes that `text` stands for in base64, with the standard alphabet and
/// padding, or `None` where `text` is no such encoding.
pub uninterp spec fn base64_decoded(text: Seq<u8>) -> Option<Seq<u8>>;

/// Decodes base64 with `Engine::decode` of the engine
/// `base64::engine::general_purpose::STANDARD`: the decoded bytes for text
/// that is valid in the standard alphabet with padding, else the crate's error.
#[verifier::external_body]
fn base64_decode(text: &[u8]) -> (res: Result<Vec<u8>, base64::DecodeError>)
    ensures
        match res {
            Ok(bytes) => base64_decoded(text@) == Some(bytes@),
            Err(_) => base64_decoded(text@) is None,
        },
{
    base64::engine::general_purpose::STANDARD.decode(text)
}

/// `String::from_utf8` gives the string that the bytes encode where they are
/// valid UTF-8, and an error where they are not.
pub assume_specification[ String::from_utf8 ](bytes: Vec<u8>) -> (res: Result<
    String,
    std::string::FromUtf8Error,
>)
    ensures
        res is Ok <==> valid_utf8(bytes@),
        res matches Ok(text) ==> text@ == decode_utf8(bytes@),
;

/// The members of a JSON value that are strings, by their names. A value
/// that is no object has none.
pub uninterp spec fn json_string_members(value: serde_json::Value) -> Map<Seq<char>, Seq<char>>;

/// The string members of the JSON value that `text` spells, or `None` where
/// `text` is not JSON.
pub uninterp spec fn json_document(text: Seq<char>) -> Option<Map<Seq<char>, Seq<char>>>;

/// Parses JSON text with `serde_json::from_str` into a `serde_json::Value`:
/// the value that the text spells, or the crate's error where it spells none.
#[verifier::external_body]
fn json_parse(text: &str) -> (res: Result<serde_json::Value, serde_json::Error>)
    ensures
        match res {
            Ok(value) => json_document(text@) == Some(json_string_members(value)),
            Err(_) => json_document(text@) is None,
        },
{
    serde_json::from_str::<serde_json::Value>(text)
}

/// Looks a member up with `Value::get` and reads it with `Value::as_str`: the
/// member's text where `value` is an object that has a member `name` which
/// is a string, else `None`.
#[verifier::external_body]
fn json_string_member(value: &serde_json::Value, name: &str) -> (res: Option<String>)
    ensures
        match res {
            Some(text) => json_string_members(*value).contains_key(name@)
                && json_string_members(*value)[name@] == text@,
            None => !json_string_members(*value).contains_key(name@),
        },
{
    value.get(name).and_then(|member| member.as_str()).map(String::from)
}

/// What a metadata record stands for.
pub struct MetadataView {
    pub format: Seq<char>,
    pub music_name: Option<Seq<char>>,
    pub album: Option<Seq<char>>,
}

/// What the decode reads of a container's metadata: the audio format, which
/// names the extension of the decoded file, and where they are given as
/// strings the song's title and album.
#[derive(Debug, Clone, PartialEq, Eq)]
pub struct Metadata {
    pub format: String,
    pub music_name: Option<String>,
    pub album: Option<String>,
}

/// The text of an optional string.
pub open spec fn text_of(field: Option<String>) -> Option<Seq<char>> {
    match field {
        Some(text) => Some(text@),
        None => None,
    }
}

impl View for Metadata {
    type V = MetadataView;

    open spec fn view(&self) -> MetadataView {
        MetadataView {
            format: self.format@,
            music_name: text_of(self.music_name),
            album: text_of(self.album),
        }
    }
}

/// The record that optional fields make: one needs the format, the other
/// fields are kept as they come.
pub open spec fn record_of(
    format: Option<Seq<char>>,
    music_name: Option<Seq<char>>,
    album: Option<Seq<char>>,
) -> Option<MetadataView> {
    match format {
        Some(format) => Some(MetadataView { format, music_name, album }),
        None => None,
    }
}

/// The member `name` of `members`, where there is one.
pub open spec fn member(members: Map<Seq<char>, Seq<char>>, name: Seq<char>) -> Option<
    Seq<char>,
> {
    if members.contains_key(name) {
        Some(members[name])
    } else {
        None
    }
}

/// The record that the string members of a JSON object make: `format` is
/// needed, `musicName` and `album` are read where they are there.
pub open spec fn record_of_members(members: Map<Seq<char>, Seq<char>>) -> Option<MetadataView> {
    record_of(member(members, "format"@), member(members, "musicName"@), member(members, "album"@))
}

/// The base64 text that a metadata region holds: the region unmasked,
/// without the vendor tag of 22 bytes. A region shorter than the tag holds none.
pub open spec fn payload_of(meta_blob: Seq<u8>) -> Option<Seq<u8>> {
    if meta_blob.len() >= 22 {
        Some(masked(meta_blob, META_MASK).skip(22))
    } else {
        None
    }
}

/// The bytes of JSON text that a decrypted metadata region holds: what is
/// left when the padding is stripped and the vendor tag of 6 bytes dropped.
pub open spec fn text_of_plaintext(plain: Seq<u8>) -> Option<Seq<u8>> {
    match unpadded(plain) {
        Some(body) => if body.len() >= 6 {
            Some(body.skip(6))
        } else {
            None
        },
        None => None,
    }
}

/// The bytes of JSON text of a container: the payload of its metadata region
/// decoded from base64, decrypted with the metadata key, unpadded, and
/// without the vendor tag.
pub open spec fn json_bytes_of(meta_key: Seq<u8>, meta_blob: Seq<u8>) -> Option<Seq<u8>> {
    match payload_of(meta_blob) {
        Some(payload) => match base64_decoded(payload) {
            Some(cipher) => match decrypted(meta_key, cipher) {
                Some(plain) => text_of_plaintext(plain),
                None => None,
            },
            None => None,
        },
        None => None,
    }
}

/// The metadata record of a container: its JSON bytes read as UTF-8, parsed
/// as JSON, and the record made of the object's members.
pub open spec fn metadata_of(meta_key: Seq<u8>, meta_blob: Seq<u8>) -> Option<MetadataView> {
    match json_bytes_of(meta_key, meta_blob) {
        Some(bytes) => if valid_utf8(bytes) {
            match json_document(decode_utf8(bytes)) {
                Some(members) => record_of_members(members),
                None => None,
            }
        } else {
            None
        },
        None => None,
    }
}

impl Metadata {
    /// Makes a record of the fields that were found. Without a format there
    /// is no record.
    pub fn from_fields(
        format: Option<String>,
        music_name: Option<String>,
        album: Option<String>,
    ) -> (res: Option<Metadata>)
        ensures
            match res {
                Some(record) => record_of(text_of(format), text_of(music_name), text_of(album))
                    == Some(record@),
                None => format is None,
            },
    {
        match format {
            Some(format) => Some(Metadata { format, music_name, album }),
            None => None,
        }
    }
}

/// Unmasks a metadata region and drops the vendor tag in front of its base64
/// text. A region shorter than the tag gives `None`.
pub fn metadata_payload(meta_blob: &[u8]) -> (res: Option<Vec<u8>>)
    ensures
        match res {
            Some(payload) => payload_of(meta_blob@) == Some(payload@),
            None => payload_of(meta_blob@) is None,
        },
{
    if meta_blob.len() < META_TAG_LENGTH {
        return None;
    }
    let mut unmasked = slice_to_vec(meta_blob);
    xor_bytes(unmasked.as_mut_slice(), META_MASK);
    Some(slice_to_vec(slice_subrange(unmasked.as_slice(), META_TAG_LENGTH, unmasked.len())))
}

/// Takes the bytes of JSON text out of a decrypted metadata region: strips
/// the padding and drops the vendor tag. Bad padding, and a region shorter
/// than the tag, give `None`.
pub fn json_bytes_from_plaintext(plain: &[u8]) -> (res: Option<Vec<u8>>)
    ensures
        match res {
            Some(bytes) => text_of_plaintext(plain@) == Some(bytes@),
            None => text_of_plaintext(plain@) is None,
        },
{
    match unpad(plain) {
        Some(body) => {
            if body.len() >= JSON_TAG_LENGTH {
                Some(slice_to_vec(slice_subrange(body.as_slice(), JSON_TAG_LENGTH, body.len())))
            } else {
                None
            }
        },
        None => None,
    }
}

/// Recovers the bytes of JSON text from a metadata region.
fn json_bytes(meta_key: &[u8], meta_blob: &[u8]) -> (res: Option<Vec<u8>>)
    ensures
        match res {
            Some(bytes) => json_bytes_of(meta_key@, meta_blob@) == Some(bytes@),
            None => json_bytes_of(meta_key@, meta_blob@) is None,
        },
{
    let payload = metadata_payload(meta_blob)?;
    let cipher = match base64_decode(payload.as_slice()) {
        Ok(cipher) => cipher,
        Err(_) => {
            return None;
        },
    };
    let plain = aes128_to_slice(meta_key, cipher.as_slice())?;
    json_bytes_from_plaintext(plain.as_slice())
}

/// Reads the record out of JSON text.
fn parse_record(text: &str) -> (res: Option<Metadata>)
    ensures
        match res {
            Some(record) => json_document(text@) is Some && record_of_members(
                json_document(text@).unwrap(),
            ) == Some(record@),
            None => json_document(text@) is None || record_of_members(
                json_document(text@).unwrap(),
            ) is None,
        },
{
    match json_parse(text) {
        Ok(value) => {
            let format = json_string_member(&value, "format");
            let music_name = json_string_member(&value, "musicName");
            let album = json_string_member(&value, "album");
            Metadata::from_fields(format, music_name, album)
        },
        Err(_) => None,
    }
}

/// Decodes the metadata region of a container into its record. Every way in
/// which the region can fail to hold one gives `CannotReadMetaInfo`: a region
/// shorter than its tag, text that is not base64, data that is not a whole
/// number of blocks, bad padding, bytes that are not UTF-8, text that is not
/// JSON, and an object without a `format` that is a string. So does an AES
/// key that is not 16 bytes long.
pub fn decode_metadata(meta_key: &[u8], meta_blob: &[u8]) -> (res: Result<Metadata, NcmError>)
    ensures
        match res {
            Ok(record) => metadata_of(meta_key@, meta_blob@) == Some(record@),
            Err(e) => metadata_of(meta_key@, meta_blob@) is None && e
                == NcmError::CannotReadMetaInfo,
        },
{
    let bytes = match json_bytes(meta_key, meta_blob) {
        Some(bytes) => bytes,
        None => {
            return Err(NcmError::CannotReadMetaInfo);
        },
    };
    let text = match String::from_utf8(bytes) {
        Ok(text) => text,
        Err(_) => {
            return Err(NcmError::CannotReadMetaInfo);
        },
    };
    match parse_record(text.as_str()) {
        Some(record) => Ok(record),
        None => Err(NcmError::CannotReadMetaInfo),
    }
}

} // verus!
