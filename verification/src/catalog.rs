//! The message catalog: the mapping from commands to request frames and
//! from response payloads to typed results.
//!
//! Payload shapes are fixed-width packed records; multi-byte integers are
//! little-endian and signed integers are two's-complement.  Each command
//! has a builder that produces its [`Request`] and, where the response is
//! not the generic return code, a parser with an exact byte-level contract.

use vstd::prelude::*;

use crate::{ErrorKind, PixyError};
use crate::codec::copy_range;

verus! {

/// Request type code of `get_version`.
pub const REQUEST_VERSION: u8 = 0x0e;
/// Response type code of `get_version`.
pub const RESPONSE_VERSION: u8 = 0x0f;
/// Request type code of `get_resolution`.
pub const REQUEST_RESOLUTION: u8 = 0x0c;
/// Response type code of `get_resolution`.
pub const RESPONSE_RESOLUTION: u8 = 0x0d;
/// Request type code of `set_camera_brightness`.
pub const REQUEST_BRIGHTNESS: u8 = 0x10;
/// Request type code of `set_servos`.
pub const REQUEST_SERVOS: u8 = 0x12;
/// Request type code of `set_led`.
pub const REQUEST_LED: u8 = 0x14;
/// Request type code of `set_lamp`.
pub const REQUEST_LAMP: u8 = 0x16;
/// Request type code of `get_fps`.
pub const REQUEST_FPS: u8 = 0x18;
/// Request type code of `get_blocks`.
pub const REQUEST_BLOCKS: u8 = 0x20;
/// Response type code of `get_blocks`.
pub const RESPONSE_BLOCKS: u8 = 0x21;
/// Request type code of `get_main_features`.
pub const REQUEST_MAIN_FEATURES: u8 = 0x30;
/// Response type code of `get_main_features`.
pub const RESPONSE_MAIN_FEATURES: u8 = 0x31;
/// Type code of the generic response carrying a 32-bit return value.
pub const RESPONSE_RESULT: u8 = 0x01;

/// The unsigned 16-bit little-endian integer at offset `i` of `s`.
pub open spec fn le16_at(s: Seq<u8>, i: int) -> int {
    s[i] + 256 * s[i + 1]
}

/// The signed (two's-complement) 16-bit little-endian integer at `i`.
pub open spec fn le16_signed_at(s: Seq<u8>, i: int) -> int {
    if le16_at(s, i) < 0x8000 {
        le16_at(s, i)
    } else {
        le16_at(s, i) - 0x10000
    }
}

/// The unsigned 32-bit little-endian integer at offset `i` of `s`.
pub open spec fn le32_at(s: Seq<u8>, i: int) -> int {
    s[i] + 256 * s[i + 1] + 0x10000 * s[i + 2] + 0x1000000 * s[i + 3]
}

/// The signed (two's-complement) 32-bit little-endian integer at `i`.
pub open spec fn le32_signed_at(s: Seq<u8>, i: int) -> int {
    if le32_at(s, i) < 0x8000_0000 {
        le32_at(s, i)
    } else {
        le32_at(s, i) - 0x1_0000_0000
    }
}

/// The two little-endian bytes of an unsigned 16-bit integer.
pub open spec fn u16_le(x: u16) -> Seq<u8> {
    seq![(x % 256) as u8, (x / 256) as u8]
}

/// Reads the unsigned 16-bit little-endian integer at offset `i`.
pub fn read_u16(s: &Vec<u8>, i: usize) -> (r: u16)
    requires
        i + 2 <= s@.len(),
    ensures
        r as int == le16_at(s@, i as int),
{
    let n = s.len();
    assert(i + 2 <= n);
    s[i] as u16 + 256 * (s[i + 1] as u16)
}

/// Reads the signed 16-bit little-endian integer at offset `i`.
pub fn read_i16(s: &Vec<u8>, i: usize) -> (r: i16)
    requires
        i + 2 <= s@.len(),
    ensures
        r as int == le16_signed_at(s@, i as int),
{
    let v = read_u16(s, i);
    if v < 0x8000 {
        v as i16
    } else {
        (v as i32 - 0x10000) as i16
    }
}

/// Reads the signed 32-bit little-endian integer at offset `i`.
pub fn read_i32(s: &Vec<u8>, i: usize) -> (r: i32)
    requires
        i + 4 <= s@.len(),
    ensures
        r as int == le32_signed_at(s@, i as int),
{
    let n = s.len();
    assert(i + 4 <= n);
    let v: u32 = s[i] as u32 + 256 * (s[i + 1] as u32) + 0x10000 * (s[i + 2] as u32) + 0x1000000
        * (s[i + 3] as u32);
    if v < 0x8000_0000 {
        v as i32
    } else {
        (v as i64 - 0x1_0000_0000i64) as i32
    }
}

/// One outbound command, as the catalog defines it: the request frame's
/// type and payload, the framing policy, and the expected response type.
pub struct Request {
    /// Message type of the request frame.
    pub req_type: u8,
    /// Request payload bytes.
    pub payload: Vec<u8>,
    /// Whether the request is sent under the checksummed sync word.
    pub checksummed: bool,
    /// Message type the response frame must carry.
    pub response_type: u8,
}

/// Firmware and hardware identity reported by `get_version`.
#[derive(Debug)]
pub struct Version {
    /// Firmware major version.
    pub fw_major: u8,
    /// Firmware minor version.
    pub fw_minor: u8,
    /// Firmware build number.
    pub fw_build: u16,
    /// Firmware type string, exactly ten bytes, NUL-padded.
    pub fw_type: Vec<u8>,
    /// Hardware version.
    pub hw: u16,
}

impl Clone for Version {
    fn clone(&self) -> (r: Self)
        ensures
            r.fw_major == self.fw_major,
            r.fw_minor == self.fw_minor,
            r.fw_build == self.fw_build,
            r.fw_type@ == self.fw_type@,
            r.hw == self.hw,
    {
        let fw_type = copy_range(&self.fw_type, 0, self.fw_type.len());
        proof {
            assert(self.fw_type@.subrange(0, self.fw_type@.len() as int) =~= self.fw_type@);
        }
        Version {
            fw_major: self.fw_major,
            fw_minor: self.fw_minor,
            fw_build: self.fw_build,
            fw_type,
            hw: self.hw,
        }
    }
}

/// One detected object, a 14-byte record in a `get_blocks` response.
#[derive(Clone, Copy, PartialEq, Eq, Structural, Debug)]
pub struct Block {
    /// Color signature (or color-code) of the object.
    pub signature: u16,
    /// Horizontal center of the object.
    pub x: u16,
    /// Vertical center of the object.
    pub y: u16,
    /// Width of the object.
    pub width: u16,
    /// Height of the object.
    pub height: u16,
    /// Angle of a color-code, in degrees.
    pub angle: i16,
    /// Tracking index of the object.
    pub index: u8,
    /// Number of frames the object has been tracked.
    pub age: u8,
}

/// The block encoded at offset `base` of a `get_blocks` response payload.
pub open spec fn block_of(s: Seq<u8>, base: int) -> Block {
    Block {
        signature: le16_at(s, base) as u16,
        x: le16_at(s, base + 2) as u16,
        y: le16_at(s, base + 4) as u16,
        width: le16_at(s, base + 6) as u16,
        height: le16_at(s, base + 8) as u16,
        angle: le16_signed_at(s, base + 10) as i16,
        index: s[base + 12],
        age: s[base + 13],
    }
}

/// One variable-length record in a `get_main_features` response.
#[derive(Debug)]
pub struct Feature {
    /// Kind of the feature (vector, intersection, barcode, ...).
    pub feature_type: u8,
    /// The feature's packed data bytes.
    pub data: Vec<u8>,
}

/// Builds the `get_version` request (empty payload).
pub fn version_request() -> (r: Request)
    ensures
        r.req_type == REQUEST_VERSION,
        r.payload@ == Seq::<u8>::empty(),
        r.checksummed,
        r.response_type == RESPONSE_VERSION,
{
    Request {
        req_type: REQUEST_VERSION,
        payload: Vec::new(),
        checksummed: true,
        response_type: RESPONSE_VERSION,
    }
}

/// Builds the `get_resolution` request (one zero byte).
pub fn resolution_request() -> (r: Request)
    ensures
        r.req_type == REQUEST_RESOLUTION,
        r.payload@ == seq![0u8],
        r.checksummed,
        r.response_type == RESPONSE_RESOLUTION,
{
    let mut payload: Vec<u8> = Vec::new();
    payload.push(0);
    proof {
        assert(payload@ =~= seq![0u8]);
    }
    Request {
        req_type: REQUEST_RESOLUTION,
        payload,
        checksummed: true,
        response_type: RESPONSE_RESOLUTION,
    }
}

/// Builds the `set_camera_brightness` request.
pub fn brightness_request(brightness: u8) -> (r: Request)
    ensures
        r.req_type == REQUEST_BRIGHTNESS,
        r.payload@ == seq![brightness],
        r.checksummed,
        r.response_type == RESPONSE_RESULT,
{
    let mut payload: Vec<u8> = Vec::new();
    payload.push(brightness);
    proof {
        assert(payload@ =~= seq![brightness]);
    }
    Request {
        req_type: REQUEST_BRIGHTNESS,
        payload,
        checksummed: true,
        response_type: RESPONSE_RESULT,
    }
}

/// Builds the `set_servos` request: both positions little-endian.
pub fn servos_request(s0: u16, s1: u16) -> (r: Request)
    ensures
        r.req_type == REQUEST_SERVOS,
        r.payload@ == u16_le(s0) + u16_le(s1),
        r.checksummed,
        r.response_type == RESPONSE_RESULT,
{
    let mut payload: Vec<u8> = Vec::new();
    payload.push((s0 % 256) as u8);
    payload.push((s0 / 256) as u8);
    payload.push((s1 % 256) as u8);
    payload.push((s1 / 256) as u8);
    proof {
        assert(payload@ =~= u16_le(s0) + u16_le(s1));
    }
    Request {
        req_type: REQUEST_SERVOS,
        payload,
        checksummed: true,
        response_type: RESPONSE_RESULT,
    }
}

/// Builds the `set_led` request: red, green, blue.
pub fn led_request(red: u8, green: u8, blue: u8) -> (r: Request)
    ensures
        r.req_type == REQUEST_LED,
        r.payload@ == seq![red, green, blue],
        r.checksummed,
        r.response_type == RESPONSE_RESULT,
{
    let mut payload: Vec<u8> = Vec::new();
    payload.push(red);
    payload.push(green);
    payload.push(blue);
    proof {
        assert(payload@ =~= seq![red, green, blue]);
    }
    Request {
        req_type: REQUEST_LED,
        payload,
        checksummed: true,
        response_type: RESPONSE_RESULT,
    }
}

/// Builds the `set_lamp` request: upper and lower lamp switches.
pub fn lamp_request(upper: u8, lower: u8) -> (r: Request)
    ensures
        r.req_type == REQUEST_LAMP,
        r.payload@ == seq![upper, lower],
        r.checksummed,
        r.response_type == RESPONSE_RESULT,
{
    let mut payload: Vec<u8> = Vec::new();
    payload.push(upper);
    payload.push(lower);
    proof {
        assert(payload@ =~= seq![upper, lower]);
    }
    Request {
        req_type: REQUEST_LAMP,
        payload,
        checksummed: true,
        response_type: RESPONSE_RESULT,
    }
}

/// Builds the `get_fps` request (empty payload).
pub fn fps_request() -> (r: Request)
    ensures
        r.req_type == REQUEST_FPS,
        r.payload@ == Seq::<u8>::empty(),
        r.checksummed,
        r.response_type == RESPONSE_RESULT,
{
    Request {
        req_type: REQUEST_FPS,
        payload: Vec::new(),
        checksummed: true,
        response_type: RESPONSE_RESULT,
    }
}

/// Builds the `get_blocks` request: signature map and block limit.
pub fn blocks_request(sigmap: u8, max_blocks: u8) -> (r: Request)
    ensures
        r.req_type == REQUEST_BLOCKS,
        r.payload@ == seq![sigmap, max_blocks],
        r.checksummed,
        r.response_type == RESPONSE_BLOCKS,
{
    let mut payload: Vec<u8> = Vec::new();
    payload.push(sigmap);
    payload.push(max_blocks);
    proof {
        assert(payload@ =~= seq![sigmap, max_blocks]);
    }
    Request {
        req_type: REQUEST_BLOCKS,
        payload,
        checksummed: true,
        response_type: RESPONSE_BLOCKS,
    }
}

/// Builds the `get_main_features` request: request kind and feature mask.
pub fn main_features_request(request: u8, features: u8) -> (r: Request)
    ensures
        r.req_type == REQUEST_MAIN_FEATURES,
        r.payload@ == seq![request, features],
        r.checksummed,
        r.response_type == RESPONSE_MAIN_FEATURES,
{
    let mut payload: Vec<u8> = Vec::new();
    payload.push(request);
    payload.push(features);
    proof {
        assert(payload@ =~= seq![request, features]);
    }
    Request {
        req_type: REQUEST_MAIN_FEATURES,
        payload,
        checksummed: true,
        response_type: RESPONSE_MAIN_FEATURES,
    }
}

/// Parses a `get_version` response payload: major, minor, build, a ten-byte
/// firmware type string, and the hardware version, 16 bytes in all.
pub fn parse_version(payload: &Vec<u8>) -> (r: Result<Version, PixyError>)
    ensures
        payload@.len() >= 16 ==> (r matches Ok(v)
            && v.fw_major == payload@[0]
            && v.fw_minor == payload@[1]
            && v.fw_build as int == le16_at(payload@, 2)
            && v.fw_type@ == payload@.subrange(4, 14)
            && v.hw as int == le16_at(payload@, 14)),
        payload@.len() < 16 ==> (r matches Err(e) && e.kind == ErrorKind::UnexpectedReply(
            RESPONSE_VERSION,
        )),
{
    if payload.len() < 16 {
        return Err(PixyError { kind: ErrorKind::UnexpectedReply(RESPONSE_VERSION) });
    }
    let fw_build = read_u16(payload, 2);
    let fw_type = copy_range(payload, 4, 14);
    let hw = read_u16(payload, 14);
    Ok(Version { fw_major: payload[0], fw_minor: payload[1], fw_build, fw_type, hw })
}

/// Parses a `get_resolution` response payload: width then height.
pub fn parse_resolution(payload: &Vec<u8>) -> (r: Result<(u16, u16), PixyError>)
    ensures
        payload@.len() >= 4 ==> (r matches Ok(wh)
            && wh.0 as int == le16_at(payload@, 0)
            && wh.1 as int == le16_at(payload@, 2)),
        payload@.len() < 4 ==> (r matches Err(e) && e.kind == ErrorKind::UnexpectedReply(
            RESPONSE_RESOLUTION,
        )),
{
    if payload.len() < 4 {
        return Err(PixyError { kind: ErrorKind::UnexpectedReply(RESPONSE_RESOLUTION) });
    }
    Ok((read_u16(payload, 0), read_u16(payload, 2)))
}

/// Parses a generic response payload: one signed 32-bit return value.
/// A negative value is a device-reported error code.
pub fn parse_result(payload: &Vec<u8>) -> (r: Result<i32, PixyError>)
    ensures
        payload@.len() >= 4 && le32_signed_at(payload@, 0) >= 0 ==> (r matches Ok(v)
            && v as int == le32_signed_at(payload@, 0)),
        payload@.len() >= 4 && le32_signed_at(payload@, 0) < 0 ==> (r matches Err(e)
            && e.kind matches ErrorKind::DeviceError(c) && c as int == le32_signed_at(payload@, 0)),
        payload@.len() < 4 ==> (r matches Err(e) && e.kind == ErrorKind::UnexpectedReply(
            RESPONSE_RESULT,
        )),
{
    if payload.len() < 4 {
        return Err(PixyError { kind: ErrorKind::UnexpectedReply(RESPONSE_RESULT) });
    }
    let v = read_i32(payload, 0);
    if v < 0 {
        Err(PixyError { kind: ErrorKind::DeviceError(v) })
    } else {
        Ok(v)
    }
}

/// Parses a `get_blocks` response payload: one [`Block`] per complete
/// 14-byte record, in payload order.  A trailing fragment shorter than one
/// record is ignored by design: the device emits whole records, and a
/// fragment carries no complete block.
pub fn parse_blocks(payload: &Vec<u8>) -> (r: Vec<Block>)
    ensures
        r@.len() == payload@.len() as int / 14,
        forall|q: int| #![trigger r@[q]] 0 <= q < r@.len() ==> r@[q] == block_of(payload@, 14 * q),
{
    let total = payload.len();
    let n = total / 14;
    proof {
        vstd::arithmetic::div_mod::lemma_fundamental_div_mod(total as int, 14);
    }
    assert(14 * n <= total);
    let mut out: Vec<Block> = Vec::new();
    let mut q: usize = 0;
    while q < n
        invariant
            0 <= q <= n,
            n == payload@.len() / 14,
            14 * n <= payload@.len(),
            total == payload@.len(),
            out@.len() == q,
            forall|p: int| #![trigger out@[p]] 0 <= p < q ==> out@[p] == block_of(payload@, 14 * p),
        decreases n - q,
    {
        let base = 14 * q;
        let block = Block {
            signature: read_u16(payload, base),
            x: read_u16(payload, base + 2),
            y: read_u16(payload, base + 4),
            width: read_u16(payload, base + 6),
            height: read_u16(payload, base + 8),
            angle: read_i16(payload, base + 10),
            index: payload[base + 12],
            age: payload[base + 13],
        };
        out.push(block);
        q = q + 1;
    }
    out
}

/// The feature records packed in `s`: each record is a type byte, a length
/// byte, and that many data bytes.  `None` when a record is truncated.
pub open spec fn feature_records(s: Seq<u8>) -> Option<Seq<(u8, Seq<u8>)>>
    decreases s.len(),
{
    if s.len() == 0 {
        Some(Seq::empty())
    } else if s.len() < 2 {
        None
    } else {
        let flen = s[1] as int;
        if s.len() < 2 + flen {
            None
        } else {
            match feature_records(s.skip(2 + flen)) {
                None => None,
                Some(rest) => Some(seq![(s[0], s.subrange(2, 2 + flen))] + rest),
            }
        }
    }
}

/// The parsed features carry exactly the record types and data bytes.
pub open spec fn features_match(v: Seq<Feature>, recs: Seq<(u8, Seq<u8>)>) -> bool {
    &&& v.len() == recs.len()
    &&& forall|q: int|
        #![trigger v[q]]
        0 <= q < v.len() ==> v[q].feature_type == recs[q].0 && v[q].data@ == recs[q].1
}

/// Parses a `get_main_features` response payload: the echoed feature mask,
/// then the variable-length feature records.
pub fn parse_main_features(payload: &Vec<u8>) -> (r: Result<Vec<Feature>, PixyError>)
    ensures
        ({
            let recs = feature_records(payload@.skip(1));
            &&& payload@.len() >= 1 && recs is Some ==> (r matches Ok(v) && features_match(
                v@,
                recs->Some_0,
            ))
            &&& payload@.len() >= 1 && recs is None ==> (r matches Err(e) && e.kind
                == ErrorKind::UnexpectedReply(RESPONSE_MAIN_FEATURES))
            &&& payload@.len() == 0 ==> (r matches Err(e2) && e2.kind
                == ErrorKind::UnexpectedReply(RESPONSE_MAIN_FEATURES))
        }),
{
    let total = payload.len();
    if total == 0 {
        return Err(PixyError { kind: ErrorKind::UnexpectedReply(RESPONSE_MAIN_FEATURES) });
    }
    let ghost s = payload@;
    let ghost tail0 = payload@.skip(1);
    let mut out: Vec<Feature> = Vec::new();
    let mut off: usize = 1;
    proof {
        assert(s.skip(1) =~= tail0);
    }
    while off < total
        invariant
            1 <= off <= total,
            total == s.len(),
            s == payload@,
            tail0 == s.skip(1),
            feature_records(s.skip(off as int)) is Some ==> feature_records(tail0) is Some,
            feature_records(s.skip(off as int)) is None ==> feature_records(tail0) is None,
            feature_records(s.skip(off as int)) matches Some(rest) ==> feature_records(tail0)
                == Some(
                out@.map_values(|f: Feature| (f.feature_type, f.data@)) + rest,
            ),
        decreases total - off,
    {
        let ghost cur = s.skip(off as int);
        proof {
            assert(cur.len() == total - off);
            assert(cur[0] == s[off as int]);
            if cur.len() >= 2 {
                assert(cur[1] == s[off as int + 1]);
            }
        }
        if total - off < 2 {
            // one stray byte: a truncated record header
            assert(feature_records(cur) is None);
            return Err(PixyError { kind: ErrorKind::UnexpectedReply(RESPONSE_MAIN_FEATURES) });
        }
        let ftype = payload[off];
        let flen = payload[off + 1] as usize;
        if flen > total - (off + 2) {
            assert(feature_records(cur) is None);
            return Err(PixyError { kind: ErrorKind::UnexpectedReply(RESPONSE_MAIN_FEATURES) });
        }
        let data = copy_range(payload, off + 2, off + 2 + flen);
        proof {
            assert(cur.subrange(2, 2 + flen as int) =~= s.subrange(
                off as int + 2,
                off as int + 2 + flen as int,
            ));
            assert(cur.skip(2 + flen as int) =~= s.skip(off as int + 2 + flen as int));
        }
        let ghost prev_views = out@.map_values(|f: Feature| (f.feature_type, f.data@));
        out.push(Feature { feature_type: ftype, data });
        proof {
            let views = out@.map_values(|f: Feature| (f.feature_type, f.data@));
            assert(views =~= prev_views + seq![(ftype, s.subrange(
                off as int + 2,
                off as int + 2 + flen as int,
            ))]);
            match feature_records(cur.skip(2 + flen as int)) {
                Some(rest2) => {
                    assert(feature_records(cur) == Some(
                        seq![(cur[0], cur.subrange(2, 2 + flen as int))] + rest2,
                    ));
                    assert(prev_views + (seq![(cur[0], cur.subrange(2, 2 + flen as int))] + rest2)
                        =~= views + rest2);
                },
                None => {
                    assert(feature_records(cur) is None);
                },
            }
        }
        off = off + 2 + flen;
    }
    proof {
        assert(s.skip(total as int) =~= Seq::<u8>::empty());
        assert(feature_records(s.skip(total as int)) == Some(Seq::<(u8, Seq<u8>)>::empty()));
        assert(out@.map_values(|f: Feature| (f.feature_type, f.data@)) + Seq::<(
            u8,
            Seq<u8>,
        )>::empty() =~= out@.map_values(|f: Feature| (f.feature_type, f.data@)));
    }
    Ok(out)
}

} // verus!
