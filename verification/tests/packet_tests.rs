use xplane_udp::packet::encode_command;
use xplane_udp::packet::encode_dref;
use xplane_udp::packet::encode_rref;
use xplane_udp::packet::EncodingError;

#[test]
fn test_cmnd_pack() {
    let packed = encode_command(b"hello/world").unwrap();
    let expected_data = b"CMND\0hello/world\0";
    assert!(packed.starts_with(expected_data));
    assert_eq!(packed.len(), 505);
}

#[test]
fn test_dref_pack() {
    let packed = encode_dref(b"hello/world", 1f32.to_bits()).unwrap();
    let expected_data = b"DREF\0\0\0\x80\x3fhello/world\0";
    assert!(packed.starts_with(expected_data));
    assert_eq!(packed.len(), 509);
}

#[test]
fn test_rref_pack() {
    let packed = encode_rref(b"hello/world", 7, 42).unwrap();
    let expected_data = b"RREF\0\x07\0\0\0\x2a\0\0\0hello/world\0";
    assert!(packed.starts_with(expected_data));
    assert_eq!(packed.len(), 413);
}

#[test]
fn cmnd_pause_on_scenario() {
    let packed = encode_command(b"sim/operation/pause_on").unwrap();
    let expected_prefix = b"CMND\0sim/operation/pause_on\0";
    assert_eq!(packed.len(), 505);
    assert!(packed.starts_with(expected_prefix));
    for i in expected_prefix.len()..505 {
        assert_eq!(packed[i], 0);
    }
}

#[test]
fn dref_transponder_scenario() {
    let path = b"sim/cockpit2/radios/actuators/transponder_code";
    let packed = encode_dref(path, 1024.0f32.to_bits()).unwrap();
    assert_eq!(packed.len(), 509);
    assert_eq!(&packed[0..5], b"DREF\0");
    assert_eq!(&packed[5..9], &1024.0f32.to_le_bytes());
    assert_eq!(&packed[9..9 + path.len()], path);
    for i in 9 + path.len()..509 {
        assert_eq!(packed[i], 0);
    }
}

#[test]
fn rref_subscribe_scenario() {
    let path = b"sim/time/paused";
    let packed = encode_rref(path, 3, 12).unwrap();
    assert_eq!(packed.len(), 413);
    assert_eq!(&packed[0..5], b"RREF\0");
    assert_eq!(&packed[5..9], &3i32.to_le_bytes());
    assert_eq!(&packed[9..13], &12i32.to_le_bytes());
    assert_eq!(&packed[13..13 + path.len()], path);
    for i in 13 + path.len()..413 {
        assert_eq!(packed[i], 0);
    }
}

#[test]
fn rref_unsubscribe_scenario() {
    // A frequency of zero signals an unsubscription; it is encoded like any
    // other value.
    let path = b"sim/time/paused";
    let packed = encode_rref(path, 0, 12).unwrap();
    assert_eq!(packed.len(), 413);
    assert_eq!(&packed[0..5], b"RREF\0");
    assert_eq!(&packed[5..9], &[0, 0, 0, 0]);
    assert_eq!(&packed[9..13], &12i32.to_le_bytes());
    assert_eq!(&packed[13..13 + path.len()], path);
}

#[test]
fn rref_negative_fields() {
    let packed = encode_rref(b"a", -1, -2).unwrap();
    assert_eq!(&packed[5..9], &[0xff, 0xff, 0xff, 0xff]);
    assert_eq!(&packed[9..13], &[0xfe, 0xff, 0xff, 0xff]);
    assert_eq!(&packed[5..9], &(-1i32).to_le_bytes());
    assert_eq!(&packed[9..13], &(-2i32).to_le_bytes());
}

#[test]
fn cmnd_name_boundary() {
    // 499 bytes fit together with the terminator; 500 do not.
    let name_499 = vec![b'x'; 499];
    let packed = encode_command(&name_499).unwrap();
    assert_eq!(packed.len(), 505);
    assert_eq!(&packed[5..504], &name_499[..]);
    assert_eq!(packed[504], 0);

    let name_500 = vec![b'x'; 500];
    assert_eq!(encode_command(&name_500), Err(EncodingError::NameTooLong));
}

#[test]
fn dref_path_boundary() {
    let path_499 = vec![b'p'; 499];
    let packed = encode_dref(&path_499, 0.0f32.to_bits()).unwrap();
    assert_eq!(packed.len(), 509);
    assert_eq!(packed[508], 0);

    let path_500 = vec![b'p'; 500];
    assert_eq!(
        encode_dref(&path_500, 0.0f32.to_bits()),
        Err(EncodingError::NameTooLong)
    );
}

#[test]
fn rref_path_boundary() {
    let path_399 = vec![b'p'; 399];
    let packed = encode_rref(&path_399, 1, 2).unwrap();
    assert_eq!(packed.len(), 413);
    assert_eq!(packed[412], 0);

    let path_400 = vec![b'p'; 400];
    assert_eq!(encode_rref(&path_400, 1, 2), Err(EncodingError::NameTooLong));
}

#[test]
fn empty_texts_encode() {
    let packed = encode_command(b"").unwrap();
    assert_eq!(packed.len(), 505);
    assert_eq!(&packed[0..5], b"CMND\0");
    for i in 5..505 {
        assert_eq!(packed[i], 0);
    }

    let packed = encode_rref(b"", 5, 6).unwrap();
    assert_eq!(packed.len(), 413);
    for i in 13..413 {
        assert_eq!(packed[i], 0);
    }
}

#[test]
fn encoding_is_deterministic() {
    let a = encode_command(b"sim/operation/pause_on").unwrap();
    let b = encode_command(b"sim/operation/pause_on").unwrap();
    assert_eq!(a, b);

    let a = encode_dref(b"sim/time/paused", 2.5f32.to_bits()).unwrap();
    let b = encode_dref(b"sim/time/paused", 2.5f32.to_bits()).unwrap();
    assert_eq!(a, b);

    let a = encode_rref(b"sim/time/paused", 3, 12).unwrap();
    let b = encode_rref(b"sim/time/paused", 3, 12).unwrap();
    assert_eq!(a, b);
}

#[test]
fn dref_float_bits_little_endian() {
    // 1.0f32 has the IEEE-754 single-precision pattern 0x3f800000.
    let packed = encode_dref(b"x", 1.0f32.to_bits()).unwrap();
    assert_eq!(&packed[5..9], &[0x00, 0x00, 0x80, 0x3f]);
}
