use pixy2::engine::{Engine, EngineState};
use pixy2::mock::{ScriptStep, ScriptedChannel};
use pixy2::ErrorKind;

/// Builds a checksummed frame by hand.
fn frame(t: u8, payload: &[u8]) -> Vec<u8> {
    let mut out = vec![0xc1u8, 0xae, t, payload.len() as u8];
    let sum: u32 = payload.iter().map(|&b| b as u32).sum();
    out.push((sum % 256) as u8);
    out.push((sum / 256) as u8);
    out.extend_from_slice(payload);
    out
}

/// The device's `get_version` response: firmware 3.0 build 0x1f40,
/// type "general", hardware 1.
fn version_response() -> Vec<u8> {
    let mut payload = vec![3u8, 0, 0x40, 0x1f];
    payload.extend_from_slice(b"general\0\0\0");
    payload.extend_from_slice(&[1, 0]);
    frame(0x0f, &payload)
}

/// A generic response carrying the signed 32-bit return value `v`.
fn generic_response(v: i32) -> Vec<u8> {
    frame(0x01, &v.to_le_bytes())
}

fn engine_with(script: Vec<ScriptStep>) -> Engine<ScriptedChannel> {
    Engine::open(ScriptedChannel::new(script, 64))
}

/// The exact bytes of the `get_version` request frame.
const VERSION_REQUEST: [u8; 6] = [0xc1, 0xae, 0x0e, 0x00, 0x00, 0x00];

#[test]
fn get_version_handshake() {
    let mut engine = engine_with(vec![ScriptStep::Give(version_response())]);
    let v = engine.version().unwrap();
    assert_eq!(v.fw_major, 3);
    assert_eq!(v.fw_minor, 0);
    assert_eq!(v.fw_build, 0x1f40);
    assert_eq!(v.fw_type, b"general\0\0\0".to_vec());
    assert_eq!(v.hw, 1);
    assert_eq!(engine.state(), EngineState::Ready);
    assert_eq!(engine.channel().wire(), &VERSION_REQUEST.to_vec());
    // A second call answers from the cache: nothing more on the wire.
    let again = engine.version().unwrap();
    assert_eq!(again.fw_build, 0x1f40);
    assert_eq!(engine.channel().wire().len(), VERSION_REQUEST.len());
}

#[test]
fn set_led_green_bytes_on_wire() {
    let mut engine = engine_with(vec![
        ScriptStep::Give(version_response()),
        ScriptStep::Give(generic_response(0)),
    ]);
    engine.set_led(0, 255, 0).unwrap();
    let mut expected = VERSION_REQUEST.to_vec();
    expected.extend_from_slice(&[0xc1, 0xae, 0x14, 0x03, 0xff, 0x00, 0x00, 0xff, 0x00]);
    assert_eq!(engine.channel().wire(), &expected);
    assert_eq!(engine.state(), EngineState::Ready);
}

#[test]
fn device_error_surfaces_verbatim() {
    let mut engine = engine_with(vec![
        ScriptStep::Give(version_response()),
        ScriptStep::Give(generic_response(-2)), // busy
    ]);
    assert_eq!(engine.set_servos(500, 500).unwrap_err().kind, ErrorKind::DeviceError(-2));
    // The device is still healthy: the engine stays ready.
    assert_eq!(engine.state(), EngineState::Ready);
    assert_eq!(engine.last_error().map(|e| e.kind), Some(ErrorKind::DeviceError(-2)));
}

#[test]
fn resync_across_garbage_prefix() {
    // Garbage bytes arrive first, the valid response on a later read.
    let mut engine = engine_with(vec![
        ScriptStep::Give(version_response()),
        ScriptStep::Give(vec![0xff, 0xff, 0xaa]),
        ScriptStep::Give(frame(0x0d, &[0x3c, 0x01, 0xd0, 0x00])),
    ]);
    assert_eq!(engine.resolution().unwrap(), (316, 208));
    assert_eq!(engine.state(), EngineState::Ready);
}

#[test]
fn corruption_retried_once_then_success() {
    let mut corrupt = generic_response(0);
    corrupt[4] ^= 0x01; // damage the checksum
    let mut engine = engine_with(vec![
        ScriptStep::Give(version_response()),
        ScriptStep::Give(corrupt),
        ScriptStep::Give(generic_response(0)),
    ]);
    assert_eq!(engine.retry_count(), 0);
    engine.set_camera_brightness(128).unwrap();
    assert_eq!(engine.retry_count(), 1);
    assert_eq!(engine.state(), EngineState::Ready);
}

#[test]
fn timeout_leaves_engine_ready_and_next_call_succeeds() {
    let mut engine = engine_with(vec![
        ScriptStep::Give(version_response()),
        ScriptStep::Quiet,
        ScriptStep::Give(generic_response(60)),
    ]);
    assert_eq!(engine.get_fps().unwrap_err().kind, ErrorKind::Timeout);
    assert_eq!(engine.state(), EngineState::Ready);
    assert_eq!(engine.get_fps().unwrap(), 60);
}

#[test]
fn calls_after_failed_handshake_fail_not_ready() {
    // The handshake times out: the engine becomes unusable and every call
    // fails with NotReady until it is reset.
    let mut engine = engine_with(vec![ScriptStep::Quiet]);
    assert_eq!(engine.set_led(1, 2, 3).unwrap_err().kind, ErrorKind::NotReady);
    assert_eq!(engine.state(), EngineState::Unusable);
    assert_eq!(engine.get_fps().unwrap_err().kind, ErrorKind::NotReady);
    assert_eq!(engine.resolution().unwrap_err().kind, ErrorKind::NotReady);
    engine.reset();
    assert_eq!(engine.state(), EngineState::Fresh);
}

#[test]
fn transactions_never_interleave_on_wire() {
    let mut engine = engine_with(vec![
        ScriptStep::Give(version_response()),
        ScriptStep::Give(generic_response(0)),
        ScriptStep::Give(generic_response(0)),
    ]);
    engine.set_lamp(1, 0).unwrap();
    engine.set_lamp(0, 0).unwrap();
    // The wire holds the three request frames whole and in order.
    let mut expected = VERSION_REQUEST.to_vec();
    expected.extend_from_slice(&frame(0x16, &[1, 0]));
    expected.extend_from_slice(&frame(0x16, &[0, 0]));
    assert_eq!(engine.channel().wire(), &expected);
    assert_ne!(engine.state(), EngineState::InFlight);
}

#[test]
fn unexpected_reply_type_rejected() {
    let mut engine = engine_with(vec![
        ScriptStep::Give(version_response()),
        ScriptStep::Give(frame(0x0d, &[0x3c, 0x01, 0xd0, 0x00])),
    ]);
    assert_eq!(engine.get_fps().unwrap_err().kind, ErrorKind::UnexpectedReply(0x0d));
    assert_eq!(engine.state(), EngineState::Ready);
}

#[test]
fn persistent_corruption_exhausts_retries() {
    let mut corrupt = generic_response(0);
    corrupt[4] ^= 0x01;
    let mut engine = engine_with(vec![
        ScriptStep::Give(version_response()),
        ScriptStep::Give(corrupt.clone()),
        ScriptStep::Give(corrupt.clone()),
        ScriptStep::Give(corrupt),
    ]);
    assert_eq!(engine.set_lamp(1, 1).unwrap_err().kind, ErrorKind::FrameCorruption);
    assert_eq!(engine.retry_count(), 2);
    assert_eq!(engine.state(), EngineState::Ready);
}

#[test]
fn channel_read_failure_makes_engine_unusable() {
    let mut engine = engine_with(vec![
        ScriptStep::Give(version_response()),
        ScriptStep::Fail,
    ]);
    assert_eq!(engine.get_fps().unwrap_err().kind, ErrorKind::ChannelError);
    assert_eq!(engine.state(), EngineState::Unusable);
    assert_eq!(engine.set_led(0, 0, 0).unwrap_err().kind, ErrorKind::NotReady);
}

#[test]
fn channel_write_failure_fails_handshake() {
    let mut engine = Engine::open(ScriptedChannel::failing_writes());
    assert_eq!(engine.version().unwrap_err().kind, ErrorKind::NotReady);
    assert_eq!(engine.state(), EngineState::Unusable);
    assert_eq!(engine.last_error().map(|e| e.kind), Some(ErrorKind::ChannelError));
}

#[test]
fn partial_writes_are_completed() {
    // The channel accepts one byte per write; the engine must loop.
    let channel = ScriptedChannel::new(vec![ScriptStep::Give(version_response())], 1);
    let mut engine = Engine::open(channel);
    engine.version().unwrap();
    assert_eq!(engine.channel().wire(), &VERSION_REQUEST.to_vec());
}

#[test]
fn get_blocks_returns_typed_records() {
    let mut payload = Vec::new();
    payload.extend_from_slice(&[1, 0, 100, 0, 50, 0, 20, 0, 10, 0, 0xd3, 0xff, 7, 9]);
    payload.extend_from_slice(&[2, 0, 0x3c, 0x01, 0xcf, 0x00, 1, 0, 1, 0, 90, 0, 0, 255]);
    let mut engine = engine_with(vec![
        ScriptStep::Give(version_response()),
        ScriptStep::Give(frame(0x21, &payload)),
    ]);
    let blocks = engine.get_blocks(255, 10).unwrap();
    assert_eq!(blocks.len(), 2);
    assert_eq!(blocks[0].signature, 1);
    assert_eq!(blocks[0].angle, -45);
    assert_eq!(blocks[1].x, 316);
    // The request carried the arguments.
    let mut expected = VERSION_REQUEST.to_vec();
    expected.extend_from_slice(&frame(0x20, &[255, 10]));
    assert_eq!(engine.channel().wire(), &expected);
}

#[test]
fn get_main_features_returns_records() {
    let mut engine = engine_with(vec![
        ScriptStep::Give(version_response()),
        ScriptStep::Give(frame(0x31, &[0x01, 0x07, 0x02, 0xaa, 0xbb])),
    ]);
    let features = engine.get_main_features(0, 7).unwrap();
    assert_eq!(features.len(), 1);
    assert_eq!(features[0].feature_type, 0x07);
    assert_eq!(features[0].data, vec![0xaa, 0xbb]);
}

#[test]
fn close_is_terminal() {
    let mut engine = engine_with(vec![ScriptStep::Give(version_response())]);
    engine.version().unwrap();
    engine.close();
    assert_eq!(engine.state(), EngineState::Closed);
    assert_eq!(engine.get_fps().unwrap_err().kind, ErrorKind::NotReady);
    engine.reset();
    assert_eq!(engine.state(), EngineState::Closed);
}

#[test]
fn response_split_across_reads() {
    // The response arrives in three fragments; the engine keeps reading.
    let resp = generic_response(0);
    let mut engine = engine_with(vec![
        ScriptStep::Give(version_response()),
        ScriptStep::Give(resp[..3].to_vec()),
        ScriptStep::Give(resp[3..7].to_vec()),
        ScriptStep::Give(resp[7..].to_vec()),
    ]);
    engine.set_led(9, 9, 9).unwrap();
    assert_eq!(engine.state(), EngineState::Ready);
}

#[test]
fn servo_position_out_of_range_rejected_before_io() {
    let mut engine = engine_with(vec![ScriptStep::Give(version_response())]);
    assert_eq!(engine.set_servos(1001, 0).unwrap_err().kind, ErrorKind::InvalidArgument);
    assert_eq!(engine.set_servos(0, 60000).unwrap_err().kind, ErrorKind::InvalidArgument);
    // Nothing reached the wire: not even the handshake ran.
    assert_eq!(engine.channel().wire().len(), 0);
    assert_eq!(engine.state(), EngineState::Fresh);
}

#[test]
fn errors_describe_their_kind() {
    let e = engine_with(vec![ScriptStep::Quiet])
        .set_led(0, 0, 0)
        .unwrap_err();
    assert_eq!(e.kind, ErrorKind::NotReady);
    assert_eq!(e.describe(), "the engine is not ready");
    let mut engine = engine_with(vec![ScriptStep::Give(version_response()), ScriptStep::Quiet]);
    let t = engine.get_fps().unwrap_err();
    assert_eq!(t.describe(), "no complete response frame before the deadline");
}

#[test]
fn device_identity_is_matched_exactly() {
    assert!(pixy2::is_pixy2_device(pixy2::PIXY_VENDOR_ID, pixy2::PIXY_PRODUCT_ID));
    assert!(pixy2::is_pixy2_device(0xb1ac, 0xf000));
    assert!(!pixy2::is_pixy2_device(0xb1ac, 0x000c));
    assert!(!pixy2::is_pixy2_device(0x1fc9, 0xf000));
    assert!(!pixy2::is_pixy2_device(0x1fc9, 0x000c)); // bootloader identity
}

#[test]
fn get_blocks_is_bounded_by_max_blocks() {
    let mut payload = Vec::new();
    payload.extend_from_slice(&[1, 0, 100, 0, 50, 0, 20, 0, 10, 0, 0xd3, 0xff, 7, 9]);
    payload.extend_from_slice(&[2, 0, 0x3c, 0x01, 0xcf, 0x00, 1, 0, 1, 0, 90, 0, 0, 255]);
    let mut engine = engine_with(vec![
        ScriptStep::Give(version_response()),
        ScriptStep::Give(frame(0x21, &payload)),
    ]);
    let blocks = engine.get_blocks(255, 1).unwrap();
    assert_eq!(blocks.len(), 1);
    assert_eq!(blocks[0].signature, 1);
}

#[test]
fn offending_frame_kept_for_diagnostics() {
    let mut engine = engine_with(vec![
        ScriptStep::Give(version_response()),
        ScriptStep::Give(frame(0x0d, &[0x3c, 0x01, 0xd0, 0x00])),
    ]);
    assert!(engine.offending_frame().is_none());
    assert_eq!(engine.get_fps().unwrap_err().kind, ErrorKind::UnexpectedReply(0x0d));
    match engine.offending_frame() {
        Some(f) => {
            assert_eq!(f.frame_type, 0x0d);
            assert_eq!(f.payload, vec![0x3c, 0x01, 0xd0, 0x00]);
        },
        None => panic!("expected the offending frame to be kept"),
    }
    engine.reset();
    assert!(engine.offending_frame().is_none());
}
