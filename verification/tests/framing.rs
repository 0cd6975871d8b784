use qrexec_frames::errors::QRXErr;
use qrexec_frames::header::{header, header_len, HEADER_LEN};
use qrexec_frames::stream::ByteStream;
use qrexec_frames::{inner_read, inner_write, FrameWriter, MemTransport, QIO};

#[test]
fn header_of_empty_body() {
    let h = header(&[]);
    assert_eq!(h, [0u8; 8]);
    assert_eq!(header_len(&h), 0);
}

#[test]
fn header_is_big_endian() {
    let body = [7u8; 5];
    let h = header(&body);
    assert_eq!(h, [0, 0, 0, 0, 0, 0, 0, 5]);
    let body256 = vec![0u8; 256];
    let h256 = header(&body256);
    assert_eq!(h256, [0, 0, 0, 0, 0, 0, 1, 0]);
}

#[test]
fn header_codec_bijection_samples() {
    for n in [0usize, 1, 8, 255, 256, 65535, 65536, 1 << 31] {
        let body = vec![0u8; n];
        let h = header(&body);
        assert_eq!(header_len(&h) as usize, n);
    }
}

#[test]
fn header_decode_is_total() {
    assert_eq!(header_len(&[0xff; 8]), u64::MAX);
    assert_eq!(header_len(&[1, 0, 0, 0, 0, 0, 0, 0]), 1u64 << 56);
}

#[test]
fn round_trip_one_frame() {
    let mut sink = ByteStream::new();
    let mut writer = FrameWriter::new(64);
    let body = b"hello";
    let written = inner_write(&mut sink, &mut writer, body).unwrap();
    assert_eq!(written, HEADER_LEN + body.len());
    let mut out: Vec<u8> = Vec::new();
    let n = inner_read(&mut sink, &mut out).unwrap();
    assert_eq!(n, body.len());
    assert_eq!(out, body);
    assert_eq!(sink.remaining(), 0);
}

#[test]
fn capacity_rejection_leaves_sink_untouched() {
    let mut sink = ByteStream::new();
    let mut writer = FrameWriter::new(10);
    let body = [1u8; 5];
    let r = inner_write(&mut sink, &mut writer, &body);
    assert!(matches!(
        r,
        Err(QRXErr::Capacity { body_len: 5, capacity: 10 })
    ));
    assert_eq!(sink.remaining(), 0);
}

#[test]
fn exact_boundary() {
    let mut sink = ByteStream::new();
    let mut writer = FrameWriter::new(16);
    let eight = [9u8; 8];
    assert_eq!(inner_write(&mut sink, &mut writer, &eight).unwrap(), 16);
    let nine = [9u8; 9];
    let r = inner_write(&mut sink, &mut writer, &nine);
    assert!(matches!(
        r,
        Err(QRXErr::Capacity { body_len: 9, capacity: 16 })
    ));
}

#[test]
fn short_header_is_an_error() {
    let mut source = ByteStream::from_bytes(vec![0, 0, 0]);
    let mut out = vec![42u8];
    let r = inner_read(&mut source, &mut out);
    assert!(matches!(r, Err(QRXErr::ShortRead)));
    assert_eq!(out, vec![42u8]);
}

#[test]
fn short_body_returns_no_partial_frame() {
    // A complete header declaring five body bytes, but only three arrive
    // before the stream ends.
    let mut wire = vec![0u8, 0, 0, 0, 0, 0, 0, 5];
    wire.extend_from_slice(&[10, 11, 12]);
    let mut source = ByteStream::from_bytes(wire);
    let mut out = vec![42u8];
    let r = inner_read(&mut source, &mut out);
    assert!(matches!(r, Err(QRXErr::ShortRead)));
    assert_eq!(out, vec![42u8]);
    assert_eq!(source.remaining(), 0);
}

#[test]
fn frames_arrive_in_write_order() {
    let mut out_end = MemTransport::new(32);
    assert_eq!(out_end.write(b"A").unwrap(), 9);
    assert_eq!(out_end.write(b"BB").unwrap(), 10);
    assert_eq!(out_end.write(b"CCC").unwrap(), 11);
    let wire = out_end.take_output();

    let mut in_end = MemTransport::with_input(wire, 32);
    let mut buf: Vec<u8> = Vec::new();
    assert_eq!(in_end.read(&mut buf).unwrap(), 1);
    assert_eq!(buf, b"A");
    assert_eq!(in_end.read(&mut buf).unwrap(), 2);
    assert_eq!(buf, b"BB");
    assert_eq!(in_end.read(&mut buf).unwrap(), 3);
    assert_eq!(buf, b"CCC");
    assert!(matches!(in_end.read(&mut buf), Err(QRXErr::ShortRead)));
}

#[test]
fn transport_capacity_error_through_trait() {
    let mut t = MemTransport::new(16);
    let r = QIO::write(&mut t, &[0u8; 9]);
    assert!(matches!(
        r,
        Err(QRXErr::Capacity { body_len: 9, capacity: 16 })
    ));
    assert!(t.take_output().is_empty());
}

#[test]
fn take_output_empties_the_sink() {
    let mut t = MemTransport::new(32);
    t.write(b"xy").unwrap();
    let first = t.take_output();
    assert_eq!(first.len(), HEADER_LEN + 2);
    assert!(t.take_output().is_empty());
}

#[test]
fn wire_image_is_header_then_body() {
    let mut t = MemTransport::new(32);
    t.write(b"hi").unwrap();
    let wire = t.take_output();
    assert_eq!(wire, [0, 0, 0, 0, 0, 0, 0, 2, b'h', b'i']);
}

#[test]
fn error_messages() {
    assert_eq!(
        QRXErr::NoStdout.message(),
        "Error: child proc failed to produce stdout"
    );
    assert_eq!(
        QRXErr::NoStdin.message(),
        "Error: child proc failed to produce stdin"
    );
    assert_eq!(
        QRXErr::NoStderr.message(),
        "Error: child proc failed to produce stderr"
    );
    assert_eq!(
        QRXErr::ShortRead.message(),
        "Error: stream ended before a complete frame"
    );
    assert_eq!(
        QRXErr::Capacity { body_len: 9, capacity: 16 }.message(),
        "Error: frame does not fit the write buffer"
    );
    assert_eq!(
        QRXErr::Io(String::from("gone")).message(),
        "Error: stream io failure"
    );
    assert_eq!(
        QRXErr::Spawn(String::from("missing")).message(),
        "Error: failed to spawn child proc"
    );
}
