use pixy2::codec::{encode_frame, checksum, Decoder, DecodeStep};
use pixy2::catalog::{
    parse_version, parse_resolution, parse_result, parse_blocks, parse_main_features, Feature,
    RESPONSE_VERSION, RESPONSE_RESOLUTION, RESPONSE_RESULT, RESPONSE_MAIN_FEATURES,
};
use pixy2::ErrorKind;

/// Builds a checksummed frame by hand, independently of the library encoder.
fn frame(t: u8, payload: &[u8]) -> Vec<u8> {
    let mut out = vec![0xc1u8, 0xae, t, payload.len() as u8];
    let sum: u32 = payload.iter().map(|&b| b as u32).sum();
    out.push((sum % 256) as u8);
    out.push((sum / 256) as u8);
    out.extend_from_slice(payload);
    out
}

fn decode_all(bytes: &[u8]) -> DecodeStep {
    let mut d = Decoder::new();
    d.feed(&bytes.to_vec());
    d.poll()
}

#[test]
fn encode_version_request_bytes() {
    let out = encode_frame(0x0e, &Vec::new(), true);
    assert_eq!(out, vec![0xc1, 0xae, 0x0e, 0x00, 0x00, 0x00]);
}

#[test]
fn encode_plain_frame_bytes() {
    let out = encode_frame(0x0e, &Vec::new(), false);
    assert_eq!(out, vec![0xc1, 0xaf, 0x0e, 0x00]);
}

#[test]
fn checksum_sums_bytes() {
    assert_eq!(checksum(&vec![1, 2, 3]), 6);
    assert_eq!(checksum(&vec![255; 255]), 255 * 255);
    assert_eq!(checksum(&Vec::new()), 0);
}

#[test]
fn round_trip_checksummed() {
    let payload = vec![10u8, 20, 30, 255, 0];
    let encoded = encode_frame(0x42, &payload, true);
    match decode_all(&encoded) {
        DecodeStep::Got(f) => {
            assert_eq!(f.frame_type, 0x42);
            assert_eq!(f.payload, payload);
            assert!(f.checksummed);
        },
        other => panic!("expected a frame, got {:?}", other),
    }
}

#[test]
fn round_trip_plain() {
    let payload = vec![7u8; 255];
    let encoded = encode_frame(0x0c, &payload, false);
    match decode_all(&encoded) {
        DecodeStep::Got(f) => {
            assert_eq!(f.frame_type, 0x0c);
            assert_eq!(f.payload, payload);
            assert!(!f.checksummed);
        },
        other => panic!("expected a frame, got {:?}", other),
    }
}

#[test]
fn resync_skips_leading_garbage() {
    // 64 garbage bytes that contain no sync pair, then a valid frame.
    let mut bytes = vec![0x00u8; 64];
    bytes.extend_from_slice(&frame(0x0d, &[0x3c, 0x01, 0xd0, 0x00]));
    let mut d = Decoder::new();
    d.feed(&bytes);
    match d.poll() {
        DecodeStep::Got(f) => {
            assert_eq!(f.frame_type, 0x0d);
            assert_eq!(f.payload, vec![0x3c, 0x01, 0xd0, 0x00]);
        },
        other => panic!("expected a frame, got {:?}", other),
    }
    // ... and no other frame comes out.
    assert!(matches!(d.poll(), DecodeStep::NeedMore));
}

#[test]
fn corruption_every_single_bit_rejected() {
    let payload = [5u8, 6, 7];
    let good = frame(0x21, &payload);
    // Flip every single bit of the checksum field and of the payload.
    for k in 4..good.len() {
        for bit in 0..8 {
            let mut damaged = good.clone();
            damaged[k] ^= 1u8 << bit;
            match decode_all(&damaged) {
                DecodeStep::Corrupt => {},
                other => panic!("byte {} bit {}: expected corruption, got {:?}", k, bit, other),
            }
        }
    }
    // The undamaged frame still decodes.
    assert!(matches!(decode_all(&good), DecodeStep::Got(_)));
}

#[test]
fn flipped_sync_orderings_accepted() {
    // Legacy byte orderings: low byte first.
    let checksummed = [0xaeu8, 0xc1, 0x01, 0x01, 0x09, 0x00, 0x09];
    match decode_all(&checksummed) {
        DecodeStep::Got(f) => {
            assert_eq!(f.frame_type, 0x01);
            assert_eq!(f.payload, vec![0x09]);
            assert!(f.checksummed);
        },
        other => panic!("expected a frame, got {:?}", other),
    }
    let plain = [0xafu8, 0xc1, 0x02, 0x01, 0x55];
    match decode_all(&plain) {
        DecodeStep::Got(f) => {
            assert_eq!(f.frame_type, 0x02);
            assert_eq!(f.payload, vec![0x55]);
            assert!(!f.checksummed);
        },
        other => panic!("expected a frame, got {:?}", other),
    }
}

#[test]
fn sync_word_straddles_two_reads() {
    let mut d = Decoder::new();
    d.feed(&vec![0xc1]);
    assert!(matches!(d.poll(), DecodeStep::NeedMore));
    d.feed(&vec![0xae, 0x01, 0x01, 0x08, 0x00, 0x08]);
    match d.poll() {
        DecodeStep::Got(f) => {
            assert_eq!(f.frame_type, 0x01);
            assert_eq!(f.payload, vec![0x08]);
        },
        other => panic!("expected a frame, got {:?}", other),
    }
}

#[test]
fn decoder_rescans_after_corruption() {
    // A corrupt frame directly followed by a valid one: the decoder reports
    // the corruption, then finds the valid frame on a later poll.
    let mut bytes = frame(0x01, &[1, 2, 3, 4]);
    bytes[4] ^= 0xff; // damage the checksum
    bytes.extend_from_slice(&frame(0x01, &[9, 9, 9, 9]));
    let mut d = Decoder::new();
    d.feed(&bytes);
    assert!(matches!(d.poll(), DecodeStep::Corrupt));
    loop {
        match d.poll() {
            DecodeStep::Got(f) => {
                assert_eq!(f.payload, vec![9, 9, 9, 9]);
                break;
            },
            DecodeStep::Corrupt | DecodeStep::NeedMore => {
                // keep rescanning what is buffered
            },
        }
    }
}

#[test]
fn parse_version_rejects_short_payload() {
    assert_eq!(
        parse_version(&vec![3, 0]).unwrap_err().kind,
        ErrorKind::UnexpectedReply(RESPONSE_VERSION)
    );
}

#[test]
fn parse_version_fields() {
    let mut payload = vec![3u8, 0, 0x40, 0x1f];
    payload.extend_from_slice(b"general\0\0\0");
    payload.extend_from_slice(&[1, 0]);
    let v = parse_version(&payload).unwrap();
    assert_eq!(v.fw_major, 3);
    assert_eq!(v.fw_minor, 0);
    assert_eq!(v.fw_build, 0x1f40);
    assert_eq!(v.fw_type, b"general\0\0\0".to_vec());
    assert_eq!(v.hw, 1);
}

#[test]
fn parse_resolution_fields() {
    assert_eq!(parse_resolution(&vec![0x3c, 0x01, 0xd0, 0x00]).unwrap(), (316, 208));
    assert_eq!(
        parse_resolution(&vec![1, 2]).unwrap_err().kind,
        ErrorKind::UnexpectedReply(RESPONSE_RESOLUTION)
    );
}

#[test]
fn parse_result_signed_values() {
    assert_eq!(parse_result(&vec![60, 0, 0, 0]).unwrap(), 60);
    assert_eq!(
        parse_result(&vec![0xfe, 0xff, 0xff, 0xff]).unwrap_err().kind,
        ErrorKind::DeviceError(-2)
    );
    assert_eq!(
        parse_result(&vec![0xff, 0xff, 0xff, 0xff]).unwrap_err().kind,
        ErrorKind::DeviceError(-1)
    );
    assert_eq!(
        parse_result(&vec![0, 0]).unwrap_err().kind,
        ErrorKind::UnexpectedReply(RESPONSE_RESULT)
    );
}

#[test]
fn parse_blocks_records() {
    let mut payload = Vec::new();
    // signature 1, x 100, y 50, width 20, height 10, angle -45, index 7, age 9
    payload.extend_from_slice(&[1, 0, 100, 0, 50, 0, 20, 0, 10, 0, 0xd3, 0xff, 7, 9]);
    // signature 2, x 316, y 207, width 1, height 1, angle 90, index 0, age 255
    payload.extend_from_slice(&[2, 0, 0x3c, 0x01, 0xcf, 0x00, 1, 0, 1, 0, 90, 0, 0, 255]);
    let blocks = parse_blocks(&payload);
    assert_eq!(blocks.len(), 2);
    assert_eq!(blocks[0].signature, 1);
    assert_eq!(blocks[0].x, 100);
    assert_eq!(blocks[0].y, 50);
    assert_eq!(blocks[0].width, 20);
    assert_eq!(blocks[0].height, 10);
    assert_eq!(blocks[0].angle, -45);
    assert_eq!(blocks[0].index, 7);
    assert_eq!(blocks[0].age, 9);
    assert_eq!(blocks[1].signature, 2);
    assert_eq!(blocks[1].x, 316);
    assert_eq!(blocks[1].y, 207);
    assert_eq!(blocks[1].angle, 90);
    assert_eq!(blocks[1].age, 255);
}

#[test]
fn parse_blocks_ignores_trailing_fragment() {
    let mut payload = vec![0u8; 14];
    payload.extend_from_slice(&[1, 2, 3]); // incomplete trailing record
    let blocks = parse_blocks(&payload);
    assert_eq!(blocks.len(), 1);
}

#[test]
fn parse_main_features_records() {
    // echo byte, then two records: (type 7, 2 data bytes), (type 1, none)
    let payload = vec![0x01u8, 0x07, 0x02, 0xaa, 0xbb, 0x01, 0x00];
    let features: Vec<Feature> = parse_main_features(&payload).unwrap();
    assert_eq!(features.len(), 2);
    assert_eq!(features[0].feature_type, 0x07);
    assert_eq!(features[0].data, vec![0xaa, 0xbb]);
    assert_eq!(features[1].feature_type, 0x01);
    assert_eq!(features[1].data, Vec::<u8>::new());
}

#[test]
fn parse_main_features_rejects_truncated_record() {
    let payload = vec![0x01u8, 0x07, 0x05, 0xaa]; // record claims 5 bytes, has 1
    assert_eq!(
        parse_main_features(&payload).unwrap_err().kind,
        ErrorKind::UnexpectedReply(RESPONSE_MAIN_FEATURES)
    );
    assert_eq!(
        parse_main_features(&Vec::new()).unwrap_err().kind,
        ErrorKind::UnexpectedReply(RESPONSE_MAIN_FEATURES)
    );
}
