//! The state machine of a download.
//!
//! The caller sends the request that [`ReadTransfer::start`] returns, then hands every
//! datagram it receives to [`ReadTransfer::receive`] and does what the step says: send
//! the acknowledgment and go on, send it and stop with the file, or stop with the error.
//!
//! Every DATA packet is acknowledged under the block number that it carries, and its
//! payload is added to the file. A datagram shorter than 516 bytes holds the last block.
//! A failed download gives no part of the file.

use crate::error::error_for_code;
use crate::error::lossy_text;
use crate::error::TftpError;
use crate::error::TftpErrorView;
use crate::wire::ack_frame;
use crate::wire::decode;
use crate::wire::decode_frame;
use crate::wire::encode_ack;
use crate::wire::encode_request;
use crate::wire::request_frame;
use crate::wire::Opcode;
use crate::wire::Packet;
use crate::wire::PacketView;
use crate::wire::MAX_FRAME;
use vstd::prelude::*;
use vstd::slice::slice_subrange;
use vstd::slice::slice_to_vec;

verus! {

/// A download that waits for a DATA packet. Its view is what was received of the file
/// so far.
pub struct ReadTransfer {
    received: Vec<u8>,
}

impl View for ReadTransfer {
    type V = Seq<u8>;

    closed spec fn view(&self) -> Seq<u8> {
        self.received@
    }
}

/// What a download does on a datagram.
pub enum ReadStep {
    /// Send `ack` to the peer that the datagram came from, and go on with `transfer`.
    Ack { transfer: ReadTransfer, ack: Vec<u8> },
    /// Send `ack` to the peer that the datagram came from: the download is done, and
    /// `file` is what was received.
    Done { file: Vec<u8>, ack: Vec<u8> },
    /// The download failed. Nothing is sent.
    Failed { error: TftpError },
}

/// What a [`ReadStep`] holds, as mathematical values.
pub ghost enum ReadStepView {
    Ack { received: Seq<u8>, ack: Seq<u8> },
    Done { file: Seq<u8>, ack: Seq<u8> },
    Failed { error: TftpErrorView },
}

impl View for ReadStep {
    type V = ReadStepView;

    open spec fn view(&self) -> ReadStepView {
        match *self {
            ReadStep::Ack { transfer, ack } => ReadStepView::Ack { received: transfer@, ack: ack@ },
            ReadStep::Done { file, ack } => ReadStepView::Done { file: file@, ack: ack@ },
            ReadStep::Failed { error } => ReadStepView::Failed { error: error@ },
        }
    }
}

/// The step of a download that has `received` so far, on a datagram.
///
/// * A DATA packet is acknowledged under its own block number, and its payload is added
///   to what was received. Where the datagram is shorter than 516 bytes the download is
///   done.
/// * An ERROR packet fails the download with the error that its code stands for.
/// * Anything else fails the download with `InvalidResponse`, which holds the datagram.
pub open spec fn read_step(received: Seq<u8>, datagram: Seq<u8>) -> ReadStepView {
    match decode_frame(datagram) {
        Some(PacketView::Data { block, payload }) => {
            if datagram.len() < MAX_FRAME {
                ReadStepView::Done { file: received + payload, ack: ack_frame(block) }
            } else {
                ReadStepView::Ack { received: received + payload, ack: ack_frame(block) }
            }
        },
        Some(PacketView::Error { code, message }) => ReadStepView::Failed {
            error: error_for_code(code as int, lossy_text(message)),
        },
        _ => ReadStepView::Failed { error: TftpErrorView::InvalidResponse(datagram) },
    }
}

impl ReadTransfer {
    /// Opens the download of `filename`. The second result is the read request to send
    /// to the server.
    pub fn start(filename: &[u8]) -> (opened: (ReadTransfer, Vec<u8>))
        ensures
            opened.0@ == Seq::<u8>::empty(),
            opened.1@ == request_frame(Opcode::ReadRequest, filename@),
    {
        let transfer = ReadTransfer { received: Vec::new() };
        (transfer, encode_request(Opcode::ReadRequest, filename))
    }

    /// Takes a datagram that was received and says what to do.
    pub fn receive(self, datagram: &[u8]) -> (step: ReadStep)
        ensures
            step@ == read_step(self@, datagram@),
    {
        match decode(datagram) {
            Some(Packet::Data { block, payload }) => {
                let mut received = self.received;
                let mut payload = payload;
                received.append(&mut payload);
                let ack = encode_ack(block);
                if datagram.len() < MAX_FRAME {
                    ReadStep::Done { file: received, ack }
                } else {
                    ReadStep::Ack { transfer: ReadTransfer { received }, ack }
                }
            },
            Some(Packet::Error { .. }) => {
                let error = TftpError::from_error_code(
                    slice_subrange(datagram, 2, datagram.len()),
                );
                proof {
                    assert(datagram@.subrange(2, datagram@.len() as int).skip(2) == datagram@.skip(
                        4,
                    ));
                }
                ReadStep::Failed { error }
            },
            _ => ReadStep::Failed { error: TftpError::InvalidResponse(slice_to_vec(datagram)) },
        }
    }
}

} // verus!
