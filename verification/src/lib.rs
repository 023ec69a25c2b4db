//! A client-side implementation of the Trivial File Transfer Protocol (RFC 1350).
//!
//! The crate holds the protocol itself and leaves the socket to its user:
//!
//! * [`wire`] translates between packets and the bytes of a datagram;
//! * [`error`] maps the body of an ERROR packet to a [`error::TftpError`];
//! * [`read`] is the state machine of a download;
//! * [`write`] is the state machine of an upload.
//!
//! Each state machine is a pure function from the state of a transfer and a received
//! datagram to the next state and the datagram to send in reply, so that the caller owns
//! the blocking send/receive loop and nothing here touches the network.

pub mod error;
pub mod read;
pub mod wire;
pub mod write;

use crate::error::TftpErrorView;
use crate::read::read_step;
use crate::read::ReadStepView;
use crate::wire::opcode_of;
use crate::write::write_step;
use crate::write::WriteStepView;
use crate::write::WriteView;
use vstd::prelude::*;

verus! {

/// A datagram whose first two bytes name no opcode fails a download and an upload alike,
/// whatever their state, with `InvalidResponse` holding the datagram as it was received.
pub proof fn lemma_unknown_opcode_fails(received: Seq<u8>, upload: WriteView, datagram: Seq<u8>)
    requires
        opcode_of(datagram) is None,
    ensures
        read_step(received, datagram) == (ReadStepView::Failed {
            error: TftpErrorView::InvalidResponse(datagram),
        }),
        write_step(upload, datagram) == (WriteStepView::Failed {
            error: TftpErrorView::InvalidResponse(datagram),
        }),
{
}

} // verus!
