//! The request documents, one explicit struct per operation.
//!
//! Each struct gathers the fields its command requires and turns itself
//! into the exact wire document; every contract pins the produced document
//! to the corresponding shape in `protocol`.

use vstd::prelude::*;

use crate::protocol::{command_key, copy_devices_doc, manifest_query_doc, mount_doc, upload_offer_doc};
use crate::value::{dv_entries, lemma_dv_entries, Doc, Value};

verus! {

/// Logical request to push image bytes to the device: the offer that
/// opens an upload. `image_size` must be the exact count of raw bytes
/// that will follow the acknowledgment.
pub struct ImageUploadRequest {
    /// The image type tag, such as a developer-image marker.
    pub image_type: String,
    /// The byte length of the image to be transferred.
    pub image_size: u64,
    /// The detached signature of the image.
    pub signature: Vec<u8>,
}

/// Logical request to attach a previously uploaded image.
pub struct MountRequest {
    /// The image type tag; the device correlates it with the upload.
    pub image_type: String,
    /// The detached signature; the device correlates it with the upload.
    pub signature: Vec<u8>,
    /// Opaque blob authorizing execution of code from the mounted image.
    pub trust_cache: Vec<u8>,
    /// Free-form info document whose schema is device-defined.
    pub info_plist: Value,
}

/// Request for the device's existing personalization manifest. The
/// personalized tag and the base tag are supplied separately because
/// newer protocol variants distinguish them.
pub struct PersonalizationManifestQuery {
    /// The personalized image type tag.
    pub personalized_image_type: String,
    /// The image type tag.
    pub image_type: String,
    /// The detached signature of the image.
    pub signature: Vec<u8>,
}

/// The request document that lists the images already mounted.
pub fn copy_devices_request() -> (doc: Value)
    ensures
        doc.dv() == copy_devices_doc(),
{
    let mut es: Vec<(String, Value)> = Vec::new();
    es.push(("Command".to_owned(), Value::Text("CopyDevices".to_owned())));
    let ghost ges = es@;
    let doc = Value::Dict(es);
    proof {
        lemma_dv_entries(ges);
        assert(dv_entries(ges) =~= copy_devices_doc()->Dict_0);
    }
    doc
}

impl ImageUploadRequest {
    /// The offer document of this request.
    pub fn into_document(self) -> (doc: Value)
        ensures
            doc.dv() == upload_offer_doc(self.image_type@, self.image_size, self.signature@),
    {
        let ghost req = self;
        let mut es: Vec<(String, Value)> = Vec::new();
        es.push(("Command".to_owned(), Value::Text("ReceiveBytes".to_owned())));
        es.push(("ImageType".to_owned(), Value::Text(self.image_type)));
        es.push(("ImageSize".to_owned(), Value::Integer(self.image_size)));
        es.push(("ImageSignature".to_owned(), Value::Data(self.signature)));
        let ghost ges = es@;
        let doc = Value::Dict(es);
        proof {
            lemma_dv_entries(ges);
            assert(ges[0].0@ == command_key() && ges[0].1.dv() == Doc::Text("ReceiveBytes"@));
            assert(ges[1].0@ == "ImageType"@ && ges[1].1.dv() == Doc::Text(req.image_type@));
            assert(ges[2].0@ == "ImageSize"@ && ges[2].1.dv() == Doc::Integer(req.image_size));
            assert(ges[3].0@ == "ImageSignature"@ && ges[3].1.dv() == Doc::Data(req.signature@));
            assert(dv_entries(ges) =~= upload_offer_doc(
                req.image_type@,
                req.image_size,
                req.signature@,
            )->Dict_0);
        }
        doc
    }
}

impl MountRequest {
    /// The mount document of this request.
    pub fn into_document(self) -> (doc: Value)
        ensures
            doc.dv() == mount_doc(
                self.image_type@,
                self.signature@,
                self.trust_cache@,
                self.info_plist.dv(),
            ),
    {
        let ghost req = self;
        let mut es: Vec<(String, Value)> = Vec::new();
        es.push(("Command".to_owned(), Value::Text("MountImage".to_owned())));
        es.push(("ImageType".to_owned(), Value::Text(self.image_type)));
        es.push(("ImageSignature".to_owned(), Value::Data(self.signature)));
        es.push(("ImageTrustCache".to_owned(), Value::Data(self.trust_cache)));
        es.push(("ImageInfoPlist".to_owned(), self.info_plist));
        let ghost ges = es@;
        let doc = Value::Dict(es);
        proof {
            lemma_dv_entries(ges);
            assert(ges[0].0@ == command_key() && ges[0].1.dv() == Doc::Text("MountImage"@));
            assert(ges[1].0@ == "ImageType"@ && ges[1].1.dv() == Doc::Text(req.image_type@));
            assert(ges[2].0@ == "ImageSignature"@ && ges[2].1.dv() == Doc::Data(req.signature@));
            assert(ges[3].0@ == "ImageTrustCache"@ && ges[3].1.dv() == Doc::Data(
                req.trust_cache@,
            ));
            assert(ges[4].0@ == "ImageInfoPlist"@ && ges[4].1.dv() == req.info_plist.dv());
            assert(dv_entries(ges) =~= mount_doc(
                req.image_type@,
                req.signature@,
                req.trust_cache@,
                req.info_plist.dv(),
            )->Dict_0);
        }
        doc
    }
}

impl PersonalizationManifestQuery {
    /// The query document of this request.
    pub fn into_document(self) -> (doc: Value)
        ensures
            doc.dv() == manifest_query_doc(
                self.personalized_image_type@,
                self.image_type@,
                self.signature@,
            ),
    {
        let ghost req = self;
        let mut es: Vec<(String, Value)> = Vec::new();
        es.push(("Command".to_owned(), Value::Text("QueryPersonalizationManifest".to_owned())));
        es.push(("PersonalizedImageType".to_owned(), Value::Text(self.personalized_image_type)));
        es.push(("ImageType".to_owned(), Value::Text(self.image_type)));
        es.push(("ImageSignature".to_owned(), Value::Data(self.signature)));
        let ghost ges = es@;
        let doc = Value::Dict(es);
        proof {
            lemma_dv_entries(ges);
            assert(ges[0].0@ == command_key() && ges[0].1.dv() == Doc::Text(
                "QueryPersonalizationManifest"@,
            ));
            assert(ges[1].0@ == "PersonalizedImageType"@ && ges[1].1.dv() == Doc::Text(
                req.personalized_image_type@,
            ));
            assert(ges[2].0@ == "ImageType"@ && ges[2].1.dv() == Doc::Text(req.image_type@));
            assert(ges[3].0@ == "ImageSignature"@ && ges[3].1.dv() == Doc::Data(req.signature@));
            assert(dv_entries(ges) =~= manifest_query_doc(
                req.personalized_image_type@,
                req.image_type@,
                req.signature@,
            )->Dict_0);
        }
        doc
    }
}

} // verus!
