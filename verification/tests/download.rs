use tftp_lib::error::TftpError;
use tftp_lib::read::ReadStep;
use tftp_lib::read::ReadTransfer;

fn data(block: u16, payload: &[u8]) -> Vec<u8> {
    let mut frame = vec![0u8, 3];
    frame.extend_from_slice(&block.to_be_bytes());
    frame.extend_from_slice(payload);
    frame
}

fn pattern(len: usize, seed: u8) -> Vec<u8> {
    (0..len).map(|i| (i as u8).wrapping_mul(31).wrapping_add(seed)).collect()
}

/// Plays the server's datagrams to a download, in order, until the download ends.
/// Gives what the client sent, how many datagrams it took, and how it ended.
fn download(name: &[u8], server: &[Vec<u8>]) -> (Vec<Vec<u8>>, usize, Result<Vec<u8>, TftpError>) {
    let (mut transfer, request) = ReadTransfer::start(name);
    let mut sent = vec![request];
    for (taken, datagram) in server.iter().enumerate() {
        match transfer.receive(datagram) {
            ReadStep::Ack { transfer: next, ack } => {
                sent.push(ack);
                transfer = next;
            },
            ReadStep::Done { file, ack } => {
                sent.push(ack);
                return (sent, taken + 1, Ok(file));
            },
            ReadStep::Failed { error } => return (sent, taken + 1, Err(error)),
        }
    }
    panic!("the download waits for another datagram");
}

#[test]
fn start_sends_a_read_request() {
    let (_, request) = ReadTransfer::start(b"pathname.txt");
    let mut expected = vec![0u8, 1];
    expected.extend_from_slice(b"pathname.txt\0netascii\0");
    assert_eq!(request, expected);
}

#[test]
fn get_two_chunks() {
    let first = pattern(512, 1);
    let second = pattern(300, 2);
    let (sent, taken, result) = download(b"f", &[data(1, &first), data(2, &second)]);
    assert_eq!(taken, 2);
    assert_eq!(sent.len(), 3);
    assert_eq!(sent[1], vec![0, 4, 0, 1]);
    assert_eq!(sent[2], vec![0, 4, 0, 2]);
    let file = result.unwrap();
    assert_eq!(file.len(), 812);
    assert_eq!(&file[..512], &first[..]);
    assert_eq!(&file[512..], &second[..]);
}

#[test]
fn get_exact_multiple_of_block_size() {
    let first = pattern(512, 3);
    let (sent, taken, result) = download(b"f", &[data(1, &first), data(2, &[])]);
    assert_eq!(taken, 2);
    assert_eq!(sent[1..], [vec![0u8, 4, 0, 1], vec![0u8, 4, 0, 2]]);
    let file = result.unwrap();
    assert_eq!(file.len(), 512);
    assert_eq!(file, first);
}

#[test]
fn get_server_error() {
    let mut error = vec![0u8, 5, 0, 1];
    error.extend_from_slice(b"file not found\0");
    let (sent, taken, result) = download(b"missing", &[error]);
    assert_eq!(taken, 1);
    assert_eq!(sent.len(), 1);
    assert!(matches!(result, Err(TftpError::FileNotFound)));
}

#[test]
fn get_empty_file() {
    let (sent, taken, result) = download(b"empty", &[data(1, &[])]);
    assert_eq!(taken, 1);
    assert_eq!(sent[1], vec![0, 4, 0, 1]);
    assert_eq!(result.unwrap(), Vec::<u8>::new());
}

#[test]
fn get_short_file() {
    let (_, _, result) = download(b"short", &[data(1, b"Testing")]);
    assert_eq!(result.unwrap(), b"Testing");
}

#[test]
fn get_three_chunks_with_511_byte_tail() {
    let chunks = [pattern(512, 4), pattern(512, 5), pattern(511, 6)];
    let server: Vec<Vec<u8>> =
        chunks.iter().enumerate().map(|(i, c)| data(i as u16 + 1, c)).collect();
    let (sent, taken, result) = download(b"f", &server);
    assert_eq!(taken, 3);
    assert_eq!(sent.len(), 4);
    assert_eq!(result.unwrap(), chunks.concat());
}

#[test]
fn ack_echoes_the_block_number_received() {
    // the block number is not held against a counter
    let (transfer, _) = ReadTransfer::start(b"f");
    match transfer.receive(&data(0xbeef, &pattern(512, 0))) {
        ReadStep::Ack { transfer, ack } => {
            assert_eq!(ack, vec![0, 4, 0xbe, 0xef]);
            match transfer.receive(&data(7, b"xy")) {
                ReadStep::Done { file, ack } => {
                    assert_eq!(ack, vec![0, 4, 0, 7]);
                    assert_eq!(file.len(), 514);
                    assert_eq!(&file[512..], b"xy");
                },
                _ => panic!("a short DATA packet ends the download"),
            }
        },
        _ => panic!("a full DATA packet goes on"),
    }
}

#[test]
fn error_after_data_gives_no_file() {
    let (sent, taken, result) =
        download(b"f", &[data(1, &pattern(512, 9)), vec![0, 5, 0, 3, b'f', b'u', b'l', b'l', 0]]);
    assert_eq!(taken, 2);
    assert_eq!(sent.len(), 2);
    assert!(matches!(result, Err(TftpError::DiskFull)));
}

#[test]
fn error_with_undefined_code_carries_the_message() {
    let (_, _, result) = download(b"f", &[vec![0, 5, 0, 0, b'o', b'o', b'p', b's', 0]]);
    match result {
        Err(TftpError::NotDefined(message)) => assert_eq!(message, "oops\0"),
        other => panic!("unexpected result: {:?}", other),
    }
    let (_, _, result) = download(b"f", &[vec![0, 5, 0, 8, 0xff]]);
    match result {
        Err(TftpError::NotDefined(message)) => assert_eq!(message, "\u{fffd}"),
        other => panic!("unexpected result: {:?}", other),
    }
}

#[test]
fn unknown_opcode_fails_download_with_the_datagram() {
    for datagram in [vec![0u8, 0, 1, 2], vec![0, 6], vec![9, 9, 9], vec![1, 3, 0, 1, 5], vec![255, 255]] {
        let (sent, _, result) = download(b"f", &[datagram.clone()]);
        assert_eq!(sent.len(), 1);
        match result {
            Err(TftpError::InvalidResponse(bytes)) => assert_eq!(bytes, datagram),
            other => panic!("unexpected result: {:?}", other),
        }
    }
}

#[test]
fn other_packets_fail_download_with_the_datagram() {
    let datagrams = [
        vec![0u8, 4, 0, 1],
        vec![0, 1, b'f', 0, b'n', b'e', b't', b'a', b's', b'c', b'i', b'i', 0],
        vec![0, 2, b'f', 0, b'o', 0],
        vec![0, 1, b'f'],
    ];
    for datagram in datagrams {
        let (_, _, result) = download(b"f", &[datagram.clone()]);
        match result {
            Err(TftpError::InvalidResponse(bytes)) => assert_eq!(bytes, datagram),
            other => panic!("unexpected result: {:?}", other),
        }
    }
}

#[test]
fn truncated_datagrams_fail_download_with_the_datagram() {
    for datagram in [vec![], vec![0u8], vec![0, 3], vec![0, 3, 0], vec![0, 5], vec![0, 5, 0]] {
        let (_, _, result) = download(b"f", &[datagram.clone()]);
        match result {
            Err(TftpError::InvalidResponse(bytes)) => assert_eq!(bytes, datagram),
            other => panic!("unexpected result: {:?}", other),
        }
    }
}

#[test]
fn oversized_data_fails_download_with_the_datagram() {
    let datagram = data(1, &pattern(513, 0));
    let (_, _, result) = download(b"f", &[datagram.clone()]);
    match result {
        Err(TftpError::InvalidResponse(bytes)) => assert_eq!(bytes, datagram),
        other => panic!("unexpected result: {:?}", other),
    }
}

#[test]
fn invalid_datagram_after_data_gives_no_file() {
    let (_, taken, result) = download(b"f", &[data(1, &pattern(512, 1)), vec![0, 7, 0, 0]]);
    assert_eq!(taken, 2);
    match result {
        Err(TftpError::InvalidResponse(bytes)) => assert_eq!(bytes, vec![0, 7, 0, 0]),
        other => panic!("unexpected result: {:?}", other),
    }
}
