//! The image mount client: one instance per channel.
//!
//! Each public operation is a request/response pair: the request method
//! produces the exact document to send, the response method judges what
//! the device answered. The host application owns the channel and moves
//! the documents and raw bytes across it, one operation at a time.
//!
//! One protocol quirk is tracked here: after any failure of the
//! personalization-manifest query, the channel is poisoned — it must be
//! discarded and a fresh client constructed over a fresh channel before
//! any further operation. The `usable` state enforces exactly that, and
//! no other operation poisons the channel.

use vstd::prelude::*;

use crate::error::MounterError;
use crate::protocol::{
    copy_devices_doc, is_status, manifest_query_doc, mount_doc, status_is, success_token,
    upload_offer_doc,
};
use crate::requests::{
    copy_devices_request, ImageUploadRequest, MountRequest, PersonalizationManifestQuery,
};
use crate::upload::{UploadOperation, UploadPhase};
use crate::value::{dv_seq, Doc, Value};

verus! {

/// Client for the device's image mount service. It stands for exclusive
/// ownership of one established channel; the channel itself lives with
/// the host application.
pub struct ImageMounter {
    usable: bool,
}

impl ImageMounter {
    /// Whether the channel behind this client may still be used. Only a
    /// failed personalization-manifest query clears this.
    pub closed spec fn usable(self) -> bool {
        self.usable
    }

    /// A client over a freshly established channel.
    pub fn new() -> (m: ImageMounter)
        ensures
            m.usable(),
    {
        ImageMounter { usable: true }
    }

    /// The logical service name under which the device exposes the
    /// mount service.
    pub fn service_name() -> (r: &'static str)
        ensures
            r@ == "com.apple.mobile.mobile_image_mounter"@,
    {
        "com.apple.mobile.mobile_image_mounter"
    }

    /// Whether the channel behind this client may still be used; when
    /// not, the client must be discarded and a fresh one constructed.
    pub fn is_usable(&self) -> (r: bool)
        ensures
            r == self.usable(),
    {
        self.usable
    }

    /// Record a failure of an in-flight personalization-manifest query
    /// that happened outside this library — a transport error while
    /// sending the query or reading its answer poisons the channel just
    /// as a negative answer does.
    pub fn mark_poisoned(&mut self)
        ensures
            !final(self).usable(),
    {
        self.usable = false;
    }

    /// The request document that lists the images already mounted on
    /// the device.
    pub fn copy_devices_request(&self) -> (doc: Value)
        requires
            self.usable(),
        ensures
            doc.dv() == copy_devices_doc(),
    {
        copy_devices_request()
    }

    /// Judge the device's answer to the list request: the `EntryList`
    /// field must hold an ordered sequence, which is returned whole —
    /// never partially. A response without such a field, or with one of
    /// another shape, breaks the protocol contract.
    pub fn copy_devices_response(&self, response: Value) -> (r: Result<Vec<Value>, MounterError>)
        requires
            self.usable(),
        ensures
            r matches Ok(entries) ==> response.dv().lookup("EntryList"@) == Some(
                Doc::Array(dv_seq(entries@)),
            ),
            r is Ok <==> (response.dv().lookup("EntryList"@) matches Some(d) && d is Array),
            r matches Err(e) ==> e == MounterError::UnexpectedResponse,
    {
        match response.take("EntryList") {
            Some(v) => match v {
                Value::Array(entries) => Ok(entries),
                _ => Err(MounterError::UnexpectedResponse),
            },
            None => Err(MounterError::UnexpectedResponse),
        }
    }

    /// Open an image upload: build the offer document announcing the
    /// image type, the exact byte length of `image`, and the detached
    /// signature, and an operation that will hand out exactly those
    /// bytes once the device acknowledges.
    pub fn begin_upload(&self, image_type: &str, image: Vec<u8>, signature: Vec<u8>) -> (r: (
        UploadOperation,
        Value,
    ))
        requires
            self.usable(),
        ensures
            r.0@.image == image@,
            r.0@.phase == UploadPhase::AwaitAck,
            r.0@.offer_response is None,
            r.1.dv() == upload_offer_doc(image_type@, image@.len() as u64, signature@),
    {
        let request = ImageUploadRequest {
            image_type: image_type.to_owned(),
            image_size: image.len() as u64,
            signature,
        };
        let doc = request.into_document();
        (UploadOperation::new(image), doc)
    }

    /// The request document that asks the device to attach an already
    /// uploaded image.
    pub fn mount_image_request(&self, request: MountRequest) -> (doc: Value)
        requires
            self.usable(),
        ensures
            doc.dv() == mount_doc(
                request.image_type@,
                request.signature@,
                request.trust_cache@,
                request.info_plist.dv(),
            ),
    {
        request.into_document()
    }

    /// Judge the device's answer to the mount request: only a `Status`
    /// field holding exactly the success token means the image was
    /// attached; any other value — missing, numeric, structured, or
    /// another string — breaks the protocol contract.
    pub fn mount_image_response(&self, response: &Value) -> (r: Result<(), MounterError>)
        requires
            self.usable(),
        ensures
            r is Ok <==> is_status(response.dv(), success_token()),
            r matches Err(e) ==> e == MounterError::UnexpectedResponse,
    {
        if status_is(response, "Success") {
            Ok(())
        } else {
            Err(MounterError::UnexpectedResponse)
        }
    }

    /// The request document that queries the device's personalization
    /// manifest.
    pub fn query_personalization_manifest_request(&self, query: PersonalizationManifestQuery) -> (doc:
        Value)
        requires
            self.usable(),
        ensures
            doc.dv() == manifest_query_doc(
                query.personalized_image_type@,
                query.image_type@,
                query.signature@,
            ),
    {
        query.into_document()
    }

    /// Judge the device's answer to the manifest query: the
    /// `ImageSignature` byte blob is returned exactly as the device sent
    /// it. A response without such a blob means the device has no
    /// manifest for this image — "not found", a kind of its own — and
    /// poisons the channel: this client refuses every further operation,
    /// and a fresh client over a fresh channel must be constructed.
    pub fn query_personalization_manifest_response(&mut self, response: Value) -> (r: Result<
        Vec<u8>,
        MounterError,
    >)
        requires
            old(self).usable(),
        ensures
            r matches Ok(manifest) ==> response.dv().lookup("ImageSignature"@) == Some(
                Doc::Data(manifest@),
            ),
            r is Ok <==> (response.dv().lookup("ImageSignature"@) matches Some(d) && d is Data),
            r is Ok ==> final(self).usable(),
            r matches Err(e) ==> e == MounterError::NotFound && !final(self).usable(),
    {
        match response.take("ImageSignature") {
            Some(v) => match v {
                Value::Data(manifest) => Ok(manifest),
                _ => {
                    self.usable = false;
                    Err(MounterError::NotFound)
                },
            },
            None => {
                self.usable = false;
                Err(MounterError::NotFound)
            },
        }
    }
}

} // verus!
