//! The errors that end a transfer, and the mapping from the code of an ERROR packet.

use crate::wire::be16;
use crate::wire::be16_bytes;
use crate::wire::lemma_be16_round_trip;
use crate::wire::read_u16;
use vstd::prelude::*;
use vstd::slice::slice_subrange;

verus! {

/// An error that ends a transfer. Exactly one is reported for a failed transfer.
#[derive(Debug)]
pub enum TftpError {
    /// The datagram received was no packet that the transfer could take. It is kept as
    /// it was received.
    InvalidResponse(Vec<u8>),
    /// Error code 0 or a code that the protocol does not define, with the message sent.
    NotDefined(String),
    /// Error code 1.
    FileNotFound,
    /// Error code 2.
    AccessViolation,
    /// Error code 3.
    DiskFull,
    /// Error code 4.
    IllegalOperation,
    /// Error code 5.
    UnknownTransferID,
    /// Error code 6.
    FileAlreadyExists,
    /// Error code 7.
    NoSuchUser,
}

/// What a [`TftpError`] holds, as mathematical values.
pub ghost enum TftpErrorView {
    InvalidResponse(Seq<u8>),
    NotDefined(Seq<char>),
    FileNotFound,
    AccessViolation,
    DiskFull,
    IllegalOperation,
    UnknownTransferID,
    FileAlreadyExists,
    NoSuchUser,
}

impl View for TftpError {
    type V = TftpErrorView;

    open spec fn view(&self) -> TftpErrorView {
        match *self {
            TftpError::InvalidResponse(bytes) => TftpErrorView::InvalidResponse(bytes@),
            TftpError::NotDefined(message) => TftpErrorView::NotDefined(message@),
            TftpError::FileNotFound => TftpErrorView::FileNotFound,
            TftpError::AccessViolation => TftpErrorView::AccessViolation,
            TftpError::DiskFull => TftpErrorView::DiskFull,
            TftpError::IllegalOperation => TftpErrorView::IllegalOperation,
            TftpError::UnknownTransferID => TftpErrorView::UnknownTransferID,
            TftpError::FileAlreadyExists => TftpErrorView::FileAlreadyExists,
            TftpError::NoSuchUser => TftpErrorView::NoSuchUser,
        }
    }
}

/// The text that `bytes` decode to as UTF-8 when every invalid sequence is replaced by
/// U+FFFD.
pub uninterp spec fn lossy_text(bytes: Seq<u8>) -> Seq<char>;

/// The error that an error code stands for, given the message that came with it.
///
/// Codes 1 to 7 each have an error of their own, whatever the message says. Code 0 and
/// every code above 7 give `NotDefined` with the message.
pub open spec fn error_for_code(code: int, message: Seq<char>) -> TftpErrorView {
    if code == 1 {
        TftpErrorView::FileNotFound
    } else if code == 2 {
        TftpErrorView::AccessViolation
    } else if code == 3 {
        TftpErrorView::DiskFull
    } else if code == 4 {
        TftpErrorView::IllegalOperation
    } else if code == 5 {
        TftpErrorView::UnknownTransferID
    } else if code == 6 {
        TftpErrorView::FileAlreadyExists
    } else if code == 7 {
        TftpErrorView::NoSuchUser
    } else {
        TftpErrorView::NotDefined(message)
    }
}

/// The error that the body of an ERROR packet stands for. The body is all that follows
/// the opcode: two bytes of code, then the message.
pub open spec fn error_of_body(body: Seq<u8>) -> TftpErrorView {
    error_for_code(be16(body[0], body[1]), lossy_text(body.skip(2)))
}

/// Decodes bytes as text with `String::from_utf8_lossy`, then copies the text into a
/// `String` of its own.
///
/// Not proved: that the text is the one `lossy_text` names. The name says no more than
/// that the text depends on the bytes alone.
#[verifier::external_body]
fn utf8_lossy(bytes: &[u8]) -> (text: String)
    ensures
        text@ == lossy_text(bytes@),
{
    String::from_utf8_lossy(bytes).into_owned()
}

impl TftpError {
    /// The error for an error code and the message that came with it.
    pub fn from_code(code: u16, message: String) -> (error: TftpError)
        ensures
            error@ == error_for_code(code as int, message@),
    {
        if code == 1 {
            TftpError::FileNotFound
        } else if code == 2 {
            TftpError::AccessViolation
        } else if code == 3 {
            TftpError::DiskFull
        } else if code == 4 {
            TftpError::IllegalOperation
        } else if code == 5 {
            TftpError::UnknownTransferID
        } else if code == 6 {
            TftpError::FileAlreadyExists
        } else if code == 7 {
            TftpError::NoSuchUser
        } else {
            TftpError::NotDefined(message)
        }
    }

    /// The error for the body of an ERROR packet: two bytes of error code, then the
    /// message, which is decoded as UTF-8 with invalid sequences replaced.
    pub fn from_error_code(response: &[u8]) -> (error: TftpError)
        requires
            response@.len() >= 2,
        ensures
            error@ == error_of_body(response@),
    {
        let code: u16 = read_u16(response[0], response[1]);
        let message = utf8_lossy(slice_subrange(response, 2, response.len()));
        TftpError::from_code(code, message)
    }
}

/// Each error code from 1 to 7 stands for one fixed error, whatever message follows it;
/// code 0 and every code above 7 give `NotDefined` with the message decoded as text.
pub proof fn lemma_error_of_code(code: u16, message: Seq<u8>)
    ensures
        code == 1 ==> error_of_body(be16_bytes(code) + message) == TftpErrorView::FileNotFound,
        code == 2 ==> error_of_body(be16_bytes(code) + message)
            == TftpErrorView::AccessViolation,
        code == 3 ==> error_of_body(be16_bytes(code) + message) == TftpErrorView::DiskFull,
        code == 4 ==> error_of_body(be16_bytes(code) + message)
            == TftpErrorView::IllegalOperation,
        code == 5 ==> error_of_body(be16_bytes(code) + message)
            == TftpErrorView::UnknownTransferID,
        code == 6 ==> error_of_body(be16_bytes(code) + message)
            == TftpErrorView::FileAlreadyExists,
        code == 7 ==> error_of_body(be16_bytes(code) + message) == TftpErrorView::NoSuchUser,
        code == 0 || code > 7 ==> error_of_body(be16_bytes(code) + message)
            == TftpErrorView::NotDefined(lossy_text(message)),
{
    let body = be16_bytes(code) + message;
    lemma_be16_round_trip(code);
    assert(body[0] == be16_bytes(code)[0]);
    assert(body[1] == be16_bytes(code)[1]);
    assert(body.skip(2) == message);
}

} // verus!
