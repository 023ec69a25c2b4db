//! The state machine of an upload.
//!
//! The caller sends the request that [`WriteTransfer::start`] returns, then hands every
//! datagram it receives to [`WriteTransfer::receive`] and does what the step says: send
//! the DATA packet and go on, stop with success, or stop with the error.
//!
//! The file is cut into blocks of 512 bytes, numbered from 1. The last block is the
//! first one that is shorter than 512 bytes, so a file whose length is a multiple of
//! 512 ends with an empty block, and an empty file is one empty block. The transfer is
//! done when an acknowledgment arrives after the last block was sent.

use crate::error::error_for_code;
use crate::error::lossy_text;
use crate::error::TftpError;
use crate::error::TftpErrorView;
use crate::wire::data_frame;
use crate::wire::decode;
use crate::wire::decode_frame;
use crate::wire::encode_data;
use crate::wire::encode_request;
use crate::wire::lemma_data_round_trip;
use crate::wire::request_frame;
use crate::wire::Opcode;
use crate::wire::Packet;
use crate::wire::PacketView;
use crate::wire::BLOCK_SIZE;
use vstd::prelude::*;
use vstd::slice::slice_subrange;
use vstd::slice::slice_to_vec;

verus! {

/// The longest file that can be uploaded: block numbers are 16 bits wide and do not
/// wrap, so the file has to end within block 65535.
pub const MAX_FILE_LEN: usize = 33_553_919;

/// An upload that waits for an acknowledgment.
pub struct WriteTransfer<'a> {
    data: &'a [u8],
    next_block: u16,
    final_sent: bool,
}

/// What a [`WriteTransfer`] holds, as mathematical values.
pub ghost struct WriteView {
    /// The file that is uploaded.
    pub data: Seq<u8>,
    /// The number of the block that is sent next, or sent again.
    pub next_block: nat,
    /// Whether the last block has been sent.
    pub final_sent: bool,
}

impl WriteView {
    /// The upload of `data` before anything was received.
    pub open spec fn initial(data: Seq<u8>) -> WriteView {
        WriteView { data, next_block: 1, final_sent: false }
    }

    /// What holds of every upload that `start` and `receive` give: the file is short
    /// enough for 16-bit block numbers, and unless the last block has been sent, every
    /// block before `next_block` is a full one, or nothing has been acknowledged yet.
    pub open spec fn wf(self) -> bool {
        &&& self.data.len() <= MAX_FILE_LEN
        &&& self.next_block >= 1
        &&& self.next_block <= u16::MAX
        &&& self.final_sent || self.next_block == 1 || self.next_block * BLOCK_SIZE
            <= self.data.len()
    }
}

/// The bytes of block `block` of a file: those from `(block - 1) * 512` up to
/// `block * 512`, as far as the file has them.
pub open spec fn chunk(data: Seq<u8>, block: nat) -> Seq<u8>
    recommends
        block >= 1,
{
    let end = if block * BLOCK_SIZE > data.len() {
        data.len() as int
    } else {
        block * BLOCK_SIZE
    };
    let start = if (block - 1) * BLOCK_SIZE > end {
        end
    } else {
        (block - 1) * BLOCK_SIZE
    };
    data.subrange(start, end)
}

/// What an upload does on a datagram.
pub enum WriteStep<'a> {
    /// Send `packet` to the peer that the datagram came from, and go on with `transfer`.
    Send { transfer: WriteTransfer<'a>, packet: Vec<u8> },
    /// The last block was acknowledged: the upload is done. Nothing is sent.
    Done,
    /// The upload failed. Nothing is sent.
    Failed { error: TftpError },
}

/// What a [`WriteStep`] holds, as mathematical values.
pub ghost enum WriteStepView {
    Send { transfer: WriteView, packet: Seq<u8> },
    Done,
    Failed { error: TftpErrorView },
}

impl<'a> View for WriteTransfer<'a> {
    type V = WriteView;

    closed spec fn view(&self) -> WriteView {
        WriteView {
            data: self.data@,
            next_block: self.next_block as nat,
            final_sent: self.final_sent,
        }
    }
}

impl<'a> View for WriteStep<'a> {
    type V = WriteStepView;

    open spec fn view(&self) -> WriteStepView {
        match *self {
            WriteStep::Send { transfer, packet } => WriteStepView::Send {
                transfer: transfer@,
                packet: packet@,
            },
            WriteStep::Done => WriteStepView::Done,
            WriteStep::Failed { error } => WriteStepView::Failed { error: error@ },
        }
    }
}

/// The step of an upload on a datagram.
///
/// * An ACK after the last block was sent ends the upload.
/// * Any other ACK has a block sent. Where it acknowledges `next_block`, the block
///   number moves on by one; otherwise it stays, so that an acknowledgment that comes
///   twice skips no block. The block sent is the last one where it is shorter than 512
///   bytes.
/// * An ERROR packet fails the upload with the error that its code stands for.
/// * Anything else fails the upload with `InvalidResponse`, which holds the datagram.
pub open spec fn write_step(transfer: WriteView, datagram: Seq<u8>) -> WriteStepView {
    match decode_frame(datagram) {
        Some(PacketView::Ack { block }) => {
            if transfer.final_sent {
                WriteStepView::Done
            } else {
                let next_block = if block == transfer.next_block {
                    transfer.next_block + 1
                } else {
                    transfer.next_block
                };
                WriteStepView::Send {
                    transfer: WriteView {
                        data: transfer.data,
                        next_block,
                        final_sent: next_block * BLOCK_SIZE > transfer.data.len(),
                    },
                    packet: data_frame(next_block as u16, chunk(transfer.data, next_block)),
                }
            }
        },
        Some(PacketView::Error { code, message }) => WriteStepView::Failed {
            error: error_for_code(code as int, lossy_text(message)),
        },
        _ => WriteStepView::Failed { error: TftpErrorView::InvalidResponse(datagram) },
    }
}

impl<'a> WriteTransfer<'a> {
    #[verifier::type_invariant]
    spec fn inv(self) -> bool {
        self@.wf()
    }

    /// Opens the upload of `data` as `filename`. The second result is the write request
    /// to send to the server.
    pub fn start(filename: &[u8], data: &'a [u8]) -> (opened: (WriteTransfer<'a>, Vec<u8>))
        requires
            data@.len() <= MAX_FILE_LEN,
        ensures
            opened.0@ == WriteView::initial(data@),
            opened.1@ == request_frame(Opcode::WriteRequest, filename@),
    {
        let transfer = WriteTransfer { data, next_block: 1, final_sent: false };
        (transfer, encode_request(Opcode::WriteRequest, filename))
    }

    /// Takes a datagram that was received and says what to do.
    pub fn receive(self, datagram: &[u8]) -> (step: WriteStep<'a>)
        ensures
            step@ == write_step(self@, datagram@),
    {
        proof {
            use_type_invariant(&self);
        }
        match decode(datagram) {
            Some(Packet::Ack { block }) => {
                if self.final_sent {
                    return WriteStep::Done;
                }
                let next_block: u16 = if block == self.next_block {
                    self.next_block + 1
                } else {
                    self.next_block
                };
                let len: usize = self.data.len();
                let full_end: usize = (next_block as usize) * BLOCK_SIZE;
                let final_sent: bool = full_end > len;
                let end: usize = if final_sent {
                    len
                } else {
                    full_end
                };
                let full_start: usize = ((next_block - 1) as usize) * BLOCK_SIZE;
                let start: usize = if full_start > end {
                    end
                } else {
                    full_start
                };
                let packet = encode_data(next_block, slice_subrange(self.data, start, end));
                let transfer = WriteTransfer { data: self.data, next_block, final_sent };
                WriteStep::Send { transfer, packet }
            },
            Some(Packet::Error { .. }) => {
                let error = TftpError::from_error_code(
                    slice_subrange(datagram, 2, datagram.len()),
                );
                proof {
                    assert(datagram@.subrange(2, datagram@.len() as int).skip(2) == datagram@.skip(
                        4,
                    ));
                }
                WriteStep::Failed { error }
            },
            _ => WriteStep::Failed { error: TftpError::InvalidResponse(slice_to_vec(datagram)) },
        }
    }
}

/// The length of a block: 512 bytes for every block that the file fills, what is left
/// of the file for the block in which it ends, and nothing after that.
pub proof fn lemma_chunk_len(data: Seq<u8>, block: nat)
    requires
        block >= 1,
    ensures
        block * BLOCK_SIZE <= data.len() ==> chunk(data, block).len() == BLOCK_SIZE,
        (block - 1) * BLOCK_SIZE <= data.len() < block * BLOCK_SIZE ==> chunk(data, block).len()
            == data.len() - (block - 1) * BLOCK_SIZE,
        data.len() < (block - 1) * BLOCK_SIZE ==> chunk(data, block).len() == 0,
        chunk(data, block).len() <= BLOCK_SIZE,
{
}

/// The blocks of a file, one after the other, are the file: byte `i` of the file is
/// byte `i % 512` of block `i / 512 + 1`.
pub proof fn lemma_chunks_cover(data: Seq<u8>, i: int)
    requires
        0 <= i < data.len(),
    ensures
        i % 512 < chunk(data, (i / 512 + 1) as nat).len(),
        chunk(data, (i / 512 + 1) as nat)[i % 512] == data[i],
{
}

/// A step that sends a block keeps the upload well formed and leaves the file as it is.
/// The block number stays or grows by one. The packet sent is a DATA packet under the
/// new block number that holds that block of the file, and the upload has sent its last
/// block exactly when that block is shorter than 512 bytes.
pub proof fn lemma_write_step_sends_block(transfer: WriteView, datagram: Seq<u8>)
    requires
        transfer.wf(),
        write_step(transfer, datagram) is Send,
    ensures
        ({
            let next = write_step(transfer, datagram)->Send_transfer;
            let packet = write_step(transfer, datagram)->packet;
            &&& next.wf()
            &&& next.data == transfer.data
            &&& next.next_block == transfer.next_block || next.next_block == transfer.next_block
                + 1
            &&& decode_frame(packet) == Some(
                PacketView::Data {
                    block: next.next_block as u16,
                    payload: chunk(transfer.data, next.next_block),
                },
            )
            &&& next.final_sent <==> chunk(transfer.data, next.next_block).len() < BLOCK_SIZE
        }),
{
    let next = write_step(transfer, datagram)->Send_transfer;
    lemma_chunk_len(transfer.data, next.next_block);
    lemma_data_round_trip(next.next_block as u16, chunk(transfer.data, next.next_block));
}

} // verus!
