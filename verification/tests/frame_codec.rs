use nitro_helper::errors::FrameError;
use nitro_helper::frame::{read_frame, write_frame};

#[test]
fn frame_round_trip_small() {
    let payload: Vec<u8> = b"hello enclave".to_vec();
    let framed = write_frame(&payload).unwrap();
    assert_eq!(framed.len(), 2 + payload.len());
    assert_eq!(framed[0], 0);
    assert_eq!(framed[1], 13);
    let read = read_frame(&framed).unwrap();
    assert_eq!(read.payload, payload);
    assert_eq!(read.consumed, framed.len());
}

#[test]
fn frame_round_trip_empty_payload() {
    let payload: Vec<u8> = Vec::new();
    let framed = write_frame(&payload).unwrap();
    assert_eq!(framed, vec![0, 0]);
    let read = read_frame(&framed).unwrap();
    assert!(read.payload.is_empty());
    assert_eq!(read.consumed, 2);
}

#[test]
fn frame_round_trip_largest_payload() {
    let payload: Vec<u8> = vec![0xAB; 65535];
    let framed = write_frame(&payload).unwrap();
    assert_eq!(framed[0], 0xFF);
    assert_eq!(framed[1], 0xFF);
    let read = read_frame(&framed).unwrap();
    assert_eq!(read.payload, payload);
    assert_eq!(read.consumed, 65537);
}

#[test]
fn frame_two_byte_prefix_is_big_endian() {
    let payload: Vec<u8> = vec![7; 300];
    let framed = write_frame(&payload).unwrap();
    assert_eq!(framed[0], 0x01);
    assert_eq!(framed[1], 0x2C);
}

#[test]
fn oversized_payload_is_refused_and_nothing_is_written() {
    let payload: Vec<u8> = vec![0; 65536];
    assert_eq!(write_frame(&payload), Err(FrameError::PayloadTooLarge));
}

#[test]
fn truncated_prefix_reads_as_connection_closed() {
    let data: Vec<u8> = vec![0x00];
    assert_eq!(read_frame(&data).unwrap_err(), FrameError::ConnectionClosed);
}

#[test]
fn truncated_body_reads_as_connection_closed() {
    let data: Vec<u8> = vec![0x00, 0x05, 1, 2];
    assert_eq!(read_frame(&data).unwrap_err(), FrameError::ConnectionClosed);
}

#[test]
fn frame_read_leaves_trailing_bytes_for_the_next_frame() {
    let first: Vec<u8> = b"one".to_vec();
    let mut stream = write_frame(&first).unwrap();
    let mut second = write_frame(&b"two".to_vec()).unwrap();
    stream.append(&mut second);
    let read = read_frame(&stream).unwrap();
    assert_eq!(read.payload, first);
    assert_eq!(read.consumed, 5);
    let rest: Vec<u8> = stream[read.consumed..].to_vec();
    let read2 = read_frame(&rest).unwrap();
    assert_eq!(read2.payload, b"two".to_vec());
}
