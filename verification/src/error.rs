//! Errors of the bottle protocol.

use vstd::prelude::*;

verus! {

/// `serde_json::Error`, carried by `BottleError::JsonDecode`.
#[verifier::external_type_specification]
#[verifier::external_body]
pub struct ExJsonError(serde_json::Error);

/// `rmp_serde::decode::Error`, carried by `BottleError::MsgpackDecode`.
#[verifier::external_type_specification]
#[verifier::external_body]
pub struct ExMsgpackDecodeError(rmp_serde::decode::Error);

/// `rmp_serde::encode::Error`, carried by `BottleError::MsgpackEncode`.
#[verifier::external_type_specification]
#[verifier::external_body]
pub struct ExMsgpackEncodeError(rmp_serde::encode::Error);

/// `base64::DecodeError`, carried by `BottleError::Base64Decode`.
#[verifier::external_type_specification]
#[verifier::external_body]
pub struct ExBase64DecodeError(base64::DecodeError);

/// `std::string::FromUtf8Error`, carried by `BottleError::Utf8`.
#[verifier::external_type_specification]
#[verifier::external_body]
pub struct ExFromUtf8Error(std::string::FromUtf8Error);

/// Everything that can go wrong when building, decoding, validating or
/// auditing a bottle.
#[derive(Debug)]
pub enum BottleError {
    /// The JSON envelope could not be decoded.
    JsonDecode(serde_json::Error),
    /// The MessagePack payload could not be decoded.
    MsgpackDecode(rmp_serde::decode::Error),
    /// The payload could not be encoded as MessagePack.
    MsgpackEncode(rmp_serde::encode::Error),
    /// The `pay` field is not valid base64.
    Base64Decode(base64::DecodeError),
    /// Bytes that should have been UTF-8 were not.
    Utf8(std::string::FromUtf8Error),
    /// The trit sum of the output differs from that of the input.
    Conservation { expected: i32, actual: i32 },
    /// The bottle outlived its time-to-live; `id` is the bottle's id.
    TtlExpired { id: [u8; 16] },
    /// Some other check failed.
    Validation { reason: String },
}

} // verus!
