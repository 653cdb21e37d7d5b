//! The four protocol operations, driven over hand-written device
//! responses: the happy paths, every failure classification, and the
//! poisoning rule of the manifest query.

use image_mounter::upload::UploadPhase;
use image_mounter::{ImageMounter, MounterError, Value};

fn text(s: &str) -> Value {
    Value::Text(s.to_owned())
}

fn dict(entries: Vec<(&str, Value)>) -> Value {
    Value::Dict(entries.into_iter().map(|(k, v)| (k.to_owned(), v)).collect())
}

fn status(s: &str) -> Value {
    dict(vec![("Status", text(s))])
}

#[test]
fn copy_devices_empty_entry_list_is_empty_sequence() {
    let m = ImageMounter::new();
    let response = dict(vec![("EntryList", Value::Array(vec![]))]);
    assert_eq!(m.copy_devices_response(response), Ok(vec![]));
}

#[test]
fn copy_devices_returns_entries_whole() {
    let m = ImageMounter::new();
    let entries = || vec![dict(vec![("ImageType", text("Developer"))]), text("spare")];
    let response = dict(vec![("Extra", Value::Integer(1)), ("EntryList", Value::Array(entries()))]);
    assert_eq!(m.copy_devices_response(response), Ok(entries()));
}

#[test]
fn copy_devices_missing_entry_list_is_unexpected_response() {
    let m = ImageMounter::new();
    let response = dict(vec![("Status", text("Success"))]);
    assert_eq!(m.copy_devices_response(response), Err(MounterError::UnexpectedResponse));
}

#[test]
fn copy_devices_wrong_shape_entry_list_is_unexpected_response() {
    let m = ImageMounter::new();
    let response = dict(vec![("EntryList", text("not a sequence"))]);
    assert_eq!(m.copy_devices_response(response), Err(MounterError::UnexpectedResponse));
    let m = ImageMounter::new();
    assert_eq!(
        m.copy_devices_response(text("not even a mapping")),
        Err(MounterError::UnexpectedResponse)
    );
}

#[test]
fn upload_full_exchange_succeeds() {
    let m = ImageMounter::new();
    let image = vec![0xAA; 4096];
    let (mut op, offer) = m.begin_upload("Developer", image.clone(), vec![0x01, 0x02]);
    assert_eq!(
        offer.get("ImageSize"),
        Some(&Value::Integer(4096)),
    );
    assert_eq!(op.current_phase(), UploadPhase::AwaitAck);
    assert_eq!(op.on_offer_response(&status("ReceiveBytesAck")), Ok(()));
    assert_eq!(op.current_phase(), UploadPhase::SendBytes);
    let bytes = op.transfer_bytes();
    assert_eq!(bytes, image);
    assert_eq!(op.current_phase(), UploadPhase::AwaitResult);
    assert_eq!(op.on_completion_response(&status("Success")), Ok(()));
    assert_eq!(op.current_phase(), UploadPhase::Succeeded);
}

#[test]
fn upload_of_empty_image_transfers_no_bytes() {
    let m = ImageMounter::new();
    let (mut op, offer) = m.begin_upload("Developer", vec![], vec![]);
    assert_eq!(offer.get("ImageSize"), Some(&Value::Integer(0)));
    assert_eq!(op.on_offer_response(&status("ReceiveBytesAck")), Ok(()));
    assert_eq!(op.transfer_bytes(), Vec::<u8>::new());
    assert_eq!(op.on_completion_response(&status("Success")), Ok(()));
    assert_eq!(op.current_phase(), UploadPhase::Succeeded);
}

#[test]
fn upload_refused_offer_fails_before_transfer() {
    let m = ImageMounter::new();
    let (mut op, _offer) = m.begin_upload("Developer", vec![1, 2, 3], vec![]);
    assert_eq!(
        op.on_offer_response(&status("Denied")),
        Err(MounterError::UnexpectedResponse)
    );
    assert_eq!(op.current_phase(), UploadPhase::Failed);
}

#[test]
fn upload_offer_without_status_fails() {
    let m = ImageMounter::new();
    let (mut op, _offer) = m.begin_upload("Developer", vec![1], vec![]);
    assert_eq!(op.on_offer_response(&dict(vec![])), Err(MounterError::UnexpectedResponse));
    assert_eq!(op.current_phase(), UploadPhase::Failed);
}

#[test]
fn upload_completion_with_other_status_fails() {
    let m = ImageMounter::new();
    let (mut op, _offer) = m.begin_upload("Developer", vec![1], vec![]);
    assert_eq!(op.on_offer_response(&status("ReceiveBytesAck")), Ok(()));
    let _ = op.transfer_bytes();
    assert_eq!(
        op.on_completion_response(&status("ReceiveBytesAck")),
        Err(MounterError::UnexpectedResponse)
    );
    assert_eq!(op.current_phase(), UploadPhase::Failed);
}

#[test]
fn mount_success_status_is_ok() {
    let m = ImageMounter::new();
    assert_eq!(m.mount_image_response(&status("Success")), Ok(()));
}

#[test]
fn mount_other_string_status_is_unexpected_response() {
    let m = ImageMounter::new();
    assert_eq!(
        m.mount_image_response(&status("Failure")),
        Err(MounterError::UnexpectedResponse)
    );
}

#[test]
fn mount_numeric_status_is_unexpected_response() {
    let m = ImageMounter::new();
    let response = dict(vec![("Status", Value::Integer(1))]);
    assert_eq!(m.mount_image_response(&response), Err(MounterError::UnexpectedResponse));
}

#[test]
fn mount_structured_status_is_unexpected_response() {
    let m = ImageMounter::new();
    let response = dict(vec![("Status", dict(vec![("code", Value::Integer(0))]))]);
    assert_eq!(m.mount_image_response(&response), Err(MounterError::UnexpectedResponse));
}

#[test]
fn mount_missing_status_is_unexpected_response() {
    let m = ImageMounter::new();
    assert_eq!(m.mount_image_response(&dict(vec![])), Err(MounterError::UnexpectedResponse));
}

#[test]
fn manifest_query_returns_exact_bytes() {
    let mut m = ImageMounter::new();
    let response = dict(vec![("ImageSignature", Value::Data(vec![0xDE, 0xAD]))]);
    assert_eq!(m.query_personalization_manifest_response(response), Ok(vec![0xDE, 0xAD]));
    assert!(m.is_usable());
}

#[test]
fn manifest_query_without_field_is_not_found_and_poisons() {
    let mut m = ImageMounter::new();
    assert!(m.is_usable());
    let response = dict(vec![]);
    assert_eq!(
        m.query_personalization_manifest_response(response),
        Err(MounterError::NotFound)
    );
    assert!(!m.is_usable());
}

#[test]
fn manifest_query_wrong_shape_field_is_not_found_and_poisons() {
    let mut m = ImageMounter::new();
    let response = dict(vec![("ImageSignature", text("not data"))]);
    assert_eq!(
        m.query_personalization_manifest_response(response),
        Err(MounterError::NotFound)
    );
    assert!(!m.is_usable());
}

#[test]
fn transport_failure_during_manifest_query_poisons() {
    let mut m = ImageMounter::new();
    m.mark_poisoned();
    assert!(!m.is_usable());
}

#[test]
fn not_found_and_unexpected_response_differ() {
    assert_ne!(MounterError::NotFound, MounterError::UnexpectedResponse);
}
