//! The wire-level protocol model: the exact shape of every request
//! document, the status tokens, and how responses are judged.

use vstd::prelude::*;

use crate::error::MounterError;
use crate::value::{Doc, Value};

verus! {

/// The key under which every command is named.
pub open spec fn command_key() -> Seq<char> {
    "Command"@
}

/// The key under which the device reports an operation's status.
pub open spec fn status_key() -> Seq<char> {
    "Status"@
}

/// Status token by which the device agrees to receive image bytes.
pub open spec fn ack_token() -> Seq<char> {
    "ReceiveBytesAck"@
}

/// Status token by which the device reports success.
pub open spec fn success_token() -> Seq<char> {
    "Success"@
}

/// The request that lists the images already mounted on the device.
pub open spec fn copy_devices_doc() -> Doc {
    Doc::Dict(seq![(command_key(), Doc::Text("CopyDevices"@))])
}

/// The offer request that opens an image upload: it announces the image
/// type, the exact count of raw bytes to follow, and the detached
/// signature.
pub open spec fn upload_offer_doc(image_type: Seq<char>, image_size: u64, signature: Seq<u8>) -> Doc {
    Doc::Dict(
        seq![
            (command_key(), Doc::Text("ReceiveBytes"@)),
            ("ImageType"@, Doc::Text(image_type)),
            ("ImageSize"@, Doc::Integer(image_size)),
            ("ImageSignature"@, Doc::Data(signature)),
        ],
    )
}

/// The request that asks the device to attach an already uploaded image.
pub open spec fn mount_doc(
    image_type: Seq<char>,
    signature: Seq<u8>,
    trust_cache: Seq<u8>,
    info_plist: Doc,
) -> Doc {
    Doc::Dict(
        seq![
            (command_key(), Doc::Text("MountImage"@)),
            ("ImageType"@, Doc::Text(image_type)),
            ("ImageSignature"@, Doc::Data(signature)),
            ("ImageTrustCache"@, Doc::Data(trust_cache)),
            ("ImageInfoPlist"@, info_plist),
        ],
    )
}

/// The request that queries the device's personalization manifest for an
/// image type.
pub open spec fn manifest_query_doc(
    personalized_image_type: Seq<char>,
    image_type: Seq<char>,
    signature: Seq<u8>,
) -> Doc {
    Doc::Dict(
        seq![
            (command_key(), Doc::Text("QueryPersonalizationManifest"@)),
            ("PersonalizedImageType"@, Doc::Text(personalized_image_type)),
            ("ImageType"@, Doc::Text(image_type)),
            ("ImageSignature"@, Doc::Data(signature)),
        ],
    )
}

/// Whether the response carries a `Status` field holding exactly the
/// string `token`. A missing field, or a status of any other type —
/// numeric, structured — never satisfies this, whatever the token.
pub open spec fn is_status(response: Doc, token: Seq<char>) -> bool {
    match response.lookup(status_key()) {
        Some(Doc::Text(s)) => s == token,
        _ => false,
    }
}

/// Whether `response` carries a `Status` field holding exactly the
/// string `token`.
pub fn status_is(response: &Value, token: &str) -> (r: bool)
    ensures
        r == is_status(response.dv(), token@),
{
    match response.get("Status") {
        Some(v) => match v {
            Value::Text(s) => {
                let t: String = token.to_owned();
                *s == t
            },
            _ => false,
        },
        None => false,
    }
}

/// The outcome of a full upload exchange, given the two structured
/// responses the device returns: the offer response must acknowledge, the
/// completion response must report success, and the first refusal decides.
pub open spec fn upload_outcome(offer_response: Doc, completion_response: Doc) -> Result<
    (),
    MounterError,
> {
    if !is_status(offer_response, ack_token()) {
        Err(MounterError::UnexpectedResponse)
    } else if !is_status(completion_response, success_token()) {
        Err(MounterError::UnexpectedResponse)
    } else {
        Ok(())
    }
}

/// The raw bytes that cross the channel during an upload, given the offer
/// response: the whole image after an acknowledgment, nothing otherwise.
pub open spec fn upload_raw_bytes(image: Seq<u8>, offer_response: Doc) -> Seq<u8> {
    if is_status(offer_response, ack_token()) {
        image
    } else {
        Seq::empty()
    }
}

/// An upload succeeds exactly when the offer response carries the
/// acknowledgment token and the completion response carries the success
/// token; substituting either status with any other value fails the
/// upload, and a refused offer fails it before any raw byte is sent.
pub proof fn lemma_upload_success_iff(offer_response: Doc, completion_response: Doc)
    ensures
        upload_outcome(offer_response, completion_response) is Ok <==> is_status(
            offer_response,
            ack_token(),
        ) && is_status(completion_response, success_token()),
        upload_outcome(offer_response, completion_response) matches Err(e) ==> e
            == MounterError::UnexpectedResponse,
{
}

/// An upload transfers exactly `image.len()` raw bytes — the image,
/// verbatim — between the acknowledgment and the final status read,
/// whatever the image holds; after anything but an acknowledgment it
/// transfers none.
pub proof fn lemma_upload_transfer_exact(image: Seq<u8>, offer_response: Doc)
    ensures
        is_status(offer_response, ack_token()) ==> upload_raw_bytes(image, offer_response)
            == image,
        is_status(offer_response, ack_token()) ==> upload_raw_bytes(image, offer_response).len()
            == image.len(),
        !is_status(offer_response, ack_token()) ==> upload_raw_bytes(image, offer_response).len()
            == 0,
{
}

} // verus!
