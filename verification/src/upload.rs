//! The three-phase image upload, as an explicit state machine.
//!
//! The offer phase announces type, size and signature and must be
//! acknowledged; the transfer phase hands out the raw image bytes,
//! verbatim and exactly once; the completion phase reads the device's
//! final status. The phase order is enforced by the contracts: raw bytes
//! can only be obtained after an acknowledged offer, and the completion
//! response can only be judged after the bytes were handed out.

use vstd::prelude::*;

use crate::error::MounterError;
use crate::protocol::{
    ack_token, is_status, status_is, success_token, upload_outcome, upload_raw_bytes,
};
use crate::value::{Doc, Value};

verus! {

/// Where an upload stands.
#[derive(Debug, Clone, Copy, PartialEq, Eq, Structural)]
pub enum UploadPhase {
    /// The offer was sent; the device's acknowledgment is awaited.
    AwaitAck,
    /// The device acknowledged; the raw image bytes are to be sent.
    SendBytes,
    /// The bytes were handed out; the device's final status is awaited.
    AwaitResult,
    /// The device durably accepted the exact byte sequence supplied.
    Succeeded,
    /// A response broke the protocol contract; the upload did not happen.
    Failed,
}

/// Mathematical state of an upload operation.
pub struct UploadModel {
    /// The raw bytes this operation is to transfer.
    pub image: Seq<u8>,
    /// Where the operation stands.
    pub phase: UploadPhase,
    /// The offer response already judged, if any.
    pub offer_response: Option<Doc>,
}

impl UploadModel {
    /// The phase is consistent with the offer response already judged:
    /// past the offer, the device's acknowledgment is on record.
    pub open spec fn wf(self) -> bool {
        match self.phase {
            UploadPhase::AwaitAck => self.offer_response is None,
            UploadPhase::Failed => true,
            _ => self.offer_response matches Some(d) && is_status(d, ack_token()),
        }
    }
}

/// One in-flight upload: it owns the image bytes until they are handed
/// out for transfer, and tracks the phase the exchange has reached.
pub struct UploadOperation {
    image: Vec<u8>,
    phase: UploadPhase,
    offer_response: Ghost<Option<Doc>>,
}

impl View for UploadOperation {
    type V = UploadModel;

    closed spec fn view(&self) -> UploadModel {
        UploadModel {
            image: self.image@,
            phase: self.phase,
            offer_response: self.offer_response@,
        }
    }
}

impl UploadOperation {
    /// Open an upload of `image`: the operation starts awaiting the
    /// device's answer to the offer.
    pub fn new(image: Vec<u8>) -> (op: UploadOperation)
        ensures
            op@ == (UploadModel {
                image: image@,
                phase: UploadPhase::AwaitAck,
                offer_response: None,
            }),
    {
        UploadOperation { image, phase: UploadPhase::AwaitAck, offer_response: Ghost(None) }
    }

    /// Where this upload stands.
    pub fn current_phase(&self) -> (p: UploadPhase)
        ensures
            p == self@.phase,
    {
        self.phase
    }

    /// Judge the device's answer to the offer. Only the exact
    /// acknowledgment token lets the upload proceed to the transfer
    /// phase; any other response fails the upload before any raw byte is
    /// sent.
    pub fn on_offer_response(&mut self, response: &Value) -> (r: Result<(), MounterError>)
        requires
            old(self)@.phase == UploadPhase::AwaitAck,
        ensures
            final(self)@.image == old(self)@.image,
            final(self)@.offer_response == Some(response.dv()),
            r is Ok <==> is_status(response.dv(), ack_token()),
            r is Ok ==> final(self)@.phase == UploadPhase::SendBytes,
            r matches Err(e) ==> final(self)@.phase == UploadPhase::Failed && e
                == MounterError::UnexpectedResponse,
            final(self)@.wf(),
    {
        self.offer_response = Ghost(Some(response.dv()));
        if status_is(response, "ReceiveBytesAck") {
            self.phase = UploadPhase::SendBytes;
            Ok(())
        } else {
            self.phase = UploadPhase::Failed;
            Err(MounterError::UnexpectedResponse)
        }
    }

    /// Hand out the raw bytes to send over the channel: exactly the
    /// image this upload was opened with, exactly once. The operation
    /// then awaits the device's final status.
    pub fn transfer_bytes(&mut self) -> (bytes: Vec<u8>)
        requires
            old(self)@.phase == UploadPhase::SendBytes,
        ensures
            bytes@ == old(self)@.image,
            old(self)@.wf() ==> (old(self)@.offer_response matches Some(d) && bytes@
                == upload_raw_bytes(old(self)@.image, d)),
            final(self)@.phase == UploadPhase::AwaitResult,
            final(self)@.offer_response == old(self)@.offer_response,
            old(self)@.wf() ==> final(self)@.wf(),
    {
        let mut bytes: Vec<u8> = Vec::new();
        core::mem::swap(&mut bytes, &mut self.image);
        self.phase = UploadPhase::AwaitResult;
        bytes
    }

    /// Judge the device's final status. Only the exact success token
    /// means the device durably accepted the byte sequence supplied; any
    /// other response fails the upload.
    pub fn on_completion_response(&mut self, response: &Value) -> (r: Result<(), MounterError>)
        requires
            old(self)@.phase == UploadPhase::AwaitResult,
        ensures
            r is Ok <==> is_status(response.dv(), success_token()),
            r is Ok ==> final(self)@.phase == UploadPhase::Succeeded,
            r matches Err(e) ==> final(self)@.phase == UploadPhase::Failed && e
                == MounterError::UnexpectedResponse,
            old(self)@.wf() ==> (old(self)@.offer_response matches Some(d) ==> r
                == upload_outcome(d, response.dv())),
    {
        if status_is(response, "Success") {
            self.phase = UploadPhase::Succeeded;
            Ok(())
        } else {
            self.phase = UploadPhase::Failed;
            Err(MounterError::UnexpectedResponse)
        }
    }
}

} // verus!
