//! Frame codec for the Pixy2 wire protocol.
//!
//! A frame is a length-prefixed, checksummed unit: a two-byte sync word,
//! a one-byte message type, a one-byte payload length, an optional 16-bit
//! little-endian checksum (the sum of the payload bytes), and the payload
//! itself.  The encoder produces outbound frames; the stateful [`Decoder`]
//! scans an inbound byte stream for sync words, validates checksums, and
//! resynchronizes after corruption.

use vstd::prelude::*;

verus! {

/// High byte of both sync words.
pub const SYNC_BYTE: u8 = 0xc1;
/// Low byte of the checksummed sync word `0xc1ae`.
pub const SYNC_CHECKSUMMED: u8 = 0xae;
/// Low byte of the unchecksummed sync word `0xc1af`.
pub const SYNC_PLAIN: u8 = 0xaf;

/// Two adjacent stream bytes form a sync word.  Both byte orderings are
/// accepted on the wire: some legacy device modes flip the sync word.
pub open spec fn is_sync_pair(a: u8, b: u8) -> bool {
    (a == 0xc1 && (b == 0xae || b == 0xaf)) || ((a == 0xae || a == 0xaf) && b == 0xc1)
}

/// A sync pair announces a checksummed frame when either byte is `0xae`.
pub open spec fn sync_is_checksummed(a: u8, b: u8) -> bool {
    a == 0xae || b == 0xae
}

/// Sum of the bytes of `s` as an unbounded integer.  For payloads of at
/// most 255 bytes the sum is below 2^16, so it equals the wire checksum.
pub open spec fn byte_sum(s: Seq<u8>) -> int
    decreases s.len(),
{
    if s.len() == 0 {
        0
    } else {
        byte_sum(s.drop_last()) + s.last()
    }
}

/// The header bytes that `encode_spec` places before the payload.
pub open spec fn encode_header(t: u8, payload: Seq<u8>, checksummed: bool) -> Seq<u8> {
    if checksummed {
        seq![
            0xc1u8,
            0xaeu8,
            t,
            payload.len() as u8,
            (byte_sum(payload) % 256) as u8,
            (byte_sum(payload) / 256) as u8,
        ]
    } else {
        seq![0xc1u8, 0xafu8, t, payload.len() as u8]
    }
}

/// The exact byte sequence of an encoded frame.
pub open spec fn encode_spec(t: u8, payload: Seq<u8>, checksummed: bool) -> Seq<u8> {
    encode_header(t, payload, checksummed) + payload
}

pub proof fn lemma_byte_sum_bounds(s: Seq<u8>)
    ensures
        0 <= byte_sum(s) <= 255 * s.len(),
    decreases s.len(),
{
    if s.len() > 0 {
        lemma_byte_sum_bounds(s.drop_last());
    }
}

pub proof fn lemma_byte_sum_take_succ(s: Seq<u8>, j: int)
    requires
        0 <= j < s.len(),
    ensures
        byte_sum(s.take(j + 1)) == byte_sum(s.take(j)) + s[j],
{
    assert(s.take(j + 1).drop_last() =~= s.take(j));
    assert(s.take(j + 1).last() == s[j]);
}

/// Changing one byte of a sequence shifts its byte sum by exactly the
/// difference between the new and the old byte.
pub proof fn lemma_byte_sum_update(s: Seq<u8>, j: int, b: u8)
    requires
        0 <= j < s.len(),
    ensures
        byte_sum(s.update(j, b)) == byte_sum(s) - s[j] + b,
    decreases s.len(),
{
    if j == s.len() - 1 {
        assert(s.update(j, b).drop_last() =~= s.drop_last());
        assert(s.update(j, b).last() == b);
    } else {
        assert(s.update(j, b).drop_last() =~= s.drop_last().update(j, b));
        assert(s.update(j, b).last() == s.last());
        lemma_byte_sum_update(s.drop_last(), j, b);
    }
}

/// Computes the wire checksum of a payload: the sum of its bytes.
pub fn checksum(payload: &Vec<u8>) -> (r: u16)
    requires
        payload@.len() <= 255,
    ensures
        r as int == byte_sum(payload@),
{
    let mut sum: u32 = 0;
    let mut j: usize = 0;
    proof {
        assert(payload@.take(0) =~= Seq::<u8>::empty());
    }
    while j < payload.len()
        invariant
            0 <= j <= payload@.len(),
            payload@.len() <= 255,
            sum as int == byte_sum(payload@.take(j as int)),
            sum <= 255 * j,
        decreases payload@.len() - j,
    {
        proof {
            lemma_byte_sum_take_succ(payload@, j as int);
        }
        sum = sum + payload[j] as u32;
        j = j + 1;
    }
    proof {
        assert(payload@.take(payload@.len() as int) =~= payload@);
    }
    sum as u16
}

/// Encodes one outbound frame.
///
/// The sync word is `c1 ae` for a checksummed frame and `c1 af` for a
/// plain one; the checksum field is present only in the former.
pub fn encode_frame(frame_type: u8, payload: &Vec<u8>, checksummed: bool) -> (r: Vec<u8>)
    requires
        payload@.len() <= 255,
    ensures
        r@ == encode_spec(frame_type, payload@, checksummed),
{
    let mut out: Vec<u8> = Vec::new();
    out.push(SYNC_BYTE);
    if checksummed {
        out.push(SYNC_CHECKSUMMED);
    } else {
        out.push(SYNC_PLAIN);
    }
    out.push(frame_type);
    out.push(payload.len() as u8);
    if checksummed {
        let sum = checksum(payload);
        out.push((sum % 256) as u8);
        out.push((sum / 256) as u8);
    }
    proof {
        assert(out@ =~= encode_header(frame_type, payload@, checksummed));
    }
    let ghost header = out@;
    let mut j: usize = 0;
    while j < payload.len()
        invariant
            0 <= j <= payload@.len(),
            out@ == header + payload@.take(j as int),
        decreases payload@.len() - j,
    {
        out.push(payload[j]);
        proof {
            assert(header + payload@.take(j as int) + seq![payload@[j as int]]
                =~= header + payload@.take(j + 1 as int));
        }
        j = j + 1;
    }
    proof {
        assert(header + payload@.take(payload@.len() as int) =~= header + payload@);
    }
    out
}

/// Index of the first sync pair in `s`, if any.
pub open spec fn find_sync(s: Seq<u8>) -> Option<int>
    decreases s.len(),
{
    if s.len() < 2 {
        None
    } else if is_sync_pair(s[0], s[1]) {
        Some(0)
    } else {
        match find_sync(s.skip(1)) {
            Some(i) => Some(i + 1),
            None => None,
        }
    }
}

pub proof fn lemma_find_sync_none(s: Seq<u8>)
    requires
        find_sync(s) is None,
    ensures
        forall|j: int| #![trigger s[j]] 0 <= j && j + 1 < s.len() ==> !is_sync_pair(s[j], s[j + 1]),
    decreases s.len(),
{
    if s.len() >= 2 {
        lemma_find_sync_none(s.skip(1));
        assert forall|j: int| #![trigger s[j]] 0 <= j && j + 1 < s.len() implies !is_sync_pair(s[j], s[j + 1]) by {
            if j > 0 {
                assert(s.skip(1)[j - 1] == s[j]);
                assert(s.skip(1)[j] == s[j + 1]);
            }
        }
    }
}

pub proof fn lemma_find_sync_some(s: Seq<u8>, i: int)
    requires
        find_sync(s) == Some(i),
    ensures
        0 <= i,
        i + 1 < s.len(),
        is_sync_pair(s[i], s[i + 1]),
        forall|j: int| #![trigger s[j]] 0 <= j < i ==> !is_sync_pair(s[j], s[j + 1]),
    decreases s.len(),
{
    if s.len() >= 2 && !is_sync_pair(s[0], s[1]) {
        lemma_find_sync_some(s.skip(1), i - 1);
        assert(s.skip(1)[i - 1] == s[i]);
        assert(s.skip(1)[i] == s[i + 1]);
        assert forall|j: int| #![trigger s[j]] 0 <= j < i implies !is_sync_pair(s[j], s[j + 1]) by {
            if j > 0 {
                assert(s.skip(1)[j - 1] == s[j]);
                assert(s.skip(1)[j] == s[j + 1]);
            }
        }
    }
}

/// Converse direction: a sync pair at `i` preceded by no earlier sync pair
/// is the one the scan finds.
pub proof fn lemma_find_sync_at(s: Seq<u8>, i: int)
    requires
        0 <= i,
        i + 1 < s.len(),
        is_sync_pair(s[i], s[i + 1]),
        forall|j: int| #![trigger s[j]] 0 <= j < i ==> !is_sync_pair(s[j], s[j + 1]),
    ensures
        find_sync(s) == Some(i),
    decreases s.len(),
{
    if i == 0 {
    } else {
        assert(!is_sync_pair(s[0], s[1]));
        assert(s.skip(1)[i - 1] == s[i]);
        assert(s.skip(1)[i] == s[i + 1]);
        assert forall|j: int| #![trigger s.skip(1)[j]] 0 <= j < i - 1 implies !is_sync_pair(s.skip(1)[j], s.skip(1)[j + 1]) by {
            assert(s.skip(1)[j] == s[j + 1]);
            assert(s.skip(1)[j + 1] == s[j + 2]);
        }
        lemma_find_sync_at(s.skip(1), i - 1);
    }
}

/// One decoded frame.
#[derive(Debug)]
pub struct Frame {
    /// The message type byte.
    pub frame_type: u8,
    /// The payload bytes (at most 255 of them).
    pub payload: Vec<u8>,
    /// Whether the frame arrived under the checksummed sync word.
    pub checksummed: bool,
}

/// What one call of [`Decoder::poll`] produced.
#[derive(Debug)]
pub enum DecodeStep {
    /// No complete frame is buffered yet; feed more bytes.
    NeedMore,
    /// A checksummed frame failed its checksum; the decoder advanced one
    /// byte past the sync word and will rescan.
    Corrupt,
    /// A complete, validated frame.
    Got(Frame),
}

/// Ghost-level counterpart of [`DecodeStep`].
pub enum SpecStep {
    NeedMore,
    Corrupt,
    Got { t: u8, payload: Seq<u8>, checksummed: bool },
}

/// The exact step the decoder takes on a buffer `s`, together with the
/// buffer it retains afterwards.
///
/// The decoder scans for the first sync pair, drops the garbage before it
/// (keeping at most one trailing byte when no sync pair exists, since a
/// sync word may straddle two reads), waits until the header and payload
/// are complete, verifies the checksum when the sync word demands one, and
/// either emits the frame or, on a checksum mismatch, advances a single
/// byte so that the scan can resynchronize.
pub open spec fn spec_poll(s: Seq<u8>) -> (SpecStep, Seq<u8>) {
    match find_sync(s) {
        None => (
            SpecStep::NeedMore,
            if s.len() == 0 {
                s
            } else {
                s.skip(s.len() - 1)
            },
        ),
        Some(i) => {
            let r = s.skip(i);
            let cs = sync_is_checksummed(r[0], r[1]);
            let hdr: int = if cs {
                6
            } else {
                4
            };
            if r.len() < hdr {
                (SpecStep::NeedMore, r)
            } else {
                let len = r[3] as int;
                if r.len() < hdr + len {
                    (SpecStep::NeedMore, r)
                } else {
                    let payload = r.subrange(hdr, hdr + len);
                    if cs && byte_sum(payload) != r[4] + 256 * r[5] {
                        (SpecStep::Corrupt, r.skip(1))
                    } else {
                        (
                            SpecStep::Got { t: r[2], payload, checksummed: cs },
                            r.skip(hdr + len),
                        )
                    }
                }
            }
        },
    }
}

/// The executable step reports the same outcome as the ghost step.
pub open spec fn step_matches(r: DecodeStep, s: SpecStep) -> bool {
    match r {
        DecodeStep::NeedMore => s is NeedMore,
        DecodeStep::Corrupt => s is Corrupt,
        DecodeStep::Got(f) => {
            &&& s matches SpecStep::Got { t, payload, checksummed }
            &&& f.frame_type == t
            &&& f.payload@ == payload
            &&& f.checksummed == checksummed
        },
    }
}

/// Removes the first `k` bytes of `v`.
fn drop_front(v: &mut Vec<u8>, k: usize)
    requires
        k <= old(v)@.len(),
    ensures
        final(v)@ == old(v)@.skip(k as int),
{
    let mut kept: Vec<u8> = Vec::new();
    let mut j: usize = k;
    proof {
        assert(old(v)@.subrange(k as int, k as int) =~= Seq::<u8>::empty());
    }
    while j < v.len()
        invariant
            k <= j <= v@.len(),
            v@ == old(v)@,
            kept@ == old(v)@.subrange(k as int, j as int),
        decreases v@.len() - j,
    {
        kept.push(v[j]);
        proof {
            assert(old(v)@.subrange(k as int, j as int) + seq![old(v)@[j as int]]
                =~= old(v)@.subrange(k as int, j + 1 as int));
        }
        j = j + 1;
    }
    proof {
        assert(old(v)@.subrange(k as int, old(v)@.len() as int) =~= old(v)@.skip(k as int));
    }
    *v = kept;
}

/// Copies `src[a..b]` into a fresh vector.
pub fn copy_range(src: &Vec<u8>, a: usize, b: usize) -> (r: Vec<u8>)
    requires
        a <= b <= src@.len(),
    ensures
        r@ == src@.subrange(a as int, b as int),
{
    let mut out: Vec<u8> = Vec::new();
    let mut j: usize = a;
    proof {
        assert(src@.subrange(a as int, a as int) =~= Seq::<u8>::empty());
    }
    while j < b
        invariant
            a <= j <= b <= src@.len(),
            out@ == src@.subrange(a as int, j as int),
        decreases b - j,
    {
        out.push(src[j]);
        proof {
            assert(src@.subrange(a as int, j as int) + seq![src@[j as int]]
                =~= src@.subrange(a as int, j + 1 as int));
        }
        j = j + 1;
    }
    out
}

/// Streaming frame decoder.
///
/// The decoder owns a scratch buffer of bytes received so far.  Bytes are
/// appended with [`Decoder::feed`]; [`Decoder::poll`] then takes exactly
/// the step that [`spec_poll`] describes.
pub struct Decoder {
    buf: Vec<u8>,
}

impl Decoder {
    /// The bytes currently buffered.
    pub closed spec fn buffered(&self) -> Seq<u8> {
        self.buf@
    }

    /// A fresh decoder with an empty buffer.
    pub fn new() -> (d: Decoder)
        ensures
            d.buffered() == Seq::<u8>::empty(),
    {
        Decoder { buf: Vec::new() }
    }

    /// Appends newly received bytes to the scratch buffer.
    pub fn feed(&mut self, bytes: &Vec<u8>)
        ensures
            final(self).buffered() == old(self).buffered() + bytes@,
    {
        let mut j: usize = 0;
        proof {
            assert(old(self).buf@ + bytes@.take(0) =~= old(self).buf@);
        }
        while j < bytes.len()
            invariant
                0 <= j <= bytes@.len(),
                self.buf@ == old(self).buf@ + bytes@.take(j as int),
            decreases bytes@.len() - j,
        {
            self.buf.push(bytes[j]);
            proof {
                assert(old(self).buf@ + bytes@.take(j as int) + seq![bytes@[j as int]]
                    =~= old(self).buf@ + bytes@.take(j + 1 as int));
            }
            j = j + 1;
        }
        proof {
            assert(old(self).buf@ + bytes@.take(bytes@.len() as int) =~= old(self).buf@ + bytes@);
        }
    }

    /// Discards everything buffered.
    pub fn clear(&mut self)
        ensures
            final(self).buffered() == Seq::<u8>::empty(),
    {
        self.buf.clear();
    }

    /// Attempts one decode step on the buffered bytes.
    pub fn poll(&mut self) -> (r: DecodeStep)
        ensures
            ({
                let (step, rem) = spec_poll(old(self).buffered());
                step_matches(r, step) && final(self).buffered() == rem
            }),
    {
        let ghost s0 = self.buf@;
        let n = self.buf.len();
        let mut i: usize = 0;
        let mut found = false;
        while !found && i + 1 < n
            invariant
                n == self.buf@.len(),
                self.buf@ == s0,
                0 <= i,
                found ==> i + 1 < n && is_sync_pair(s0[i as int], s0[i as int + 1]),
                !found ==> i + 1 <= n || i == 0,
                forall|j: int| #![trigger s0[j]] 0 <= j < i ==> !is_sync_pair(s0[j], s0[j + 1]),
            decreases n - i + (if found { 0int } else { 1int }),
        {
            let a = self.buf[i];
            let b = self.buf[i + 1];
            if (a == SYNC_BYTE && (b == SYNC_CHECKSUMMED || b == SYNC_PLAIN))
                || ((a == SYNC_CHECKSUMMED || a == SYNC_PLAIN) && b == SYNC_BYTE) {
                found = true;
            } else {
                i = i + 1;
            }
        }
        if !found {
            proof {
                match find_sync(s0) {
                    Some(k) => lemma_find_sync_some(s0, k),
                    None => (),
                }
            }
            if n > 0 {
                let last = self.buf[n - 1];
                self.buf.clear();
                self.buf.push(last);
                proof {
                    assert(self.buf@ =~= s0.skip(s0.len() - 1));
                }
            }
            return DecodeStep::NeedMore;
        }
        proof {
            lemma_find_sync_at(s0, i as int);
        }
        drop_front(&mut self.buf, i);
        let ghost r = s0.skip(i as int);
        let b0 = self.buf[0];
        let b1 = self.buf[1];
        let cs = b0 == SYNC_CHECKSUMMED || b1 == SYNC_CHECKSUMMED;
        let hdr: usize = if cs {
            6
        } else {
            4
        };
        if self.buf.len() < hdr {
            return DecodeStep::NeedMore;
        }
        let len = self.buf[3] as usize;
        if self.buf.len() < hdr + len {
            return DecodeStep::NeedMore;
        }
        let payload = copy_range(&self.buf, hdr, hdr + len);
        if cs {
            let stored: u32 = self.buf[4] as u32 + 256 * (self.buf[5] as u32);
            let sum = checksum(&payload);
            if sum as u32 != stored {
                drop_front(&mut self.buf, 1);
                return DecodeStep::Corrupt;
            }
        }
        let t = self.buf[2];
        drop_front(&mut self.buf, hdr + len);
        DecodeStep::Got(Frame { frame_type: t, payload, checksummed: cs })
    }
}

/// Decoding a buffer that holds exactly one encoded frame, first sync pair
/// at `i`, yields that frame and leaves the buffer empty.
proof fn lemma_poll_exact_frame(s: Seq<u8>, i: int, t: u8, payload: Seq<u8>, checksummed: bool)
    requires
        payload.len() <= 255,
        find_sync(s) == Some(i),
        0 <= i,
        s.skip(i) == encode_spec(t, payload, checksummed),
    ensures
        spec_poll(s) == (
            SpecStep::Got { t, payload, checksummed },
            Seq::<u8>::empty(),
        ),
{
    let e = encode_spec(t, payload, checksummed);
    let r = s.skip(i);
    let hdr: int = if checksummed {
        6
    } else {
        4
    };
    assert(r.len() == hdr + payload.len());
    assert(r[0] == 0xc1 && (r[1] == 0xae || r[1] == 0xaf));
    assert(sync_is_checksummed(r[0], r[1]) == checksummed);
    assert(r[3] as int == payload.len());
    assert(r.subrange(hdr, hdr + payload.len() as int) =~= payload);
    if checksummed {
        lemma_byte_sum_bounds(payload);
        let bs = byte_sum(payload);
        vstd::arithmetic::div_mod::lemma_fundamental_div_mod(bs, 256);
        assert(0 <= bs % 256 < 256);
        assert(r[4] as int == bs % 256);
        assert(r[5] as int == bs / 256);
        assert(byte_sum(payload) == r[4] + 256 * r[5]);
    }
    assert(r.skip(hdr + payload.len() as int) =~= Seq::<u8>::empty());
}

/// Codec round-trip law: for any message type, payload of at most 255
/// bytes, and framing policy, decoding the encoded frame yields the same
/// type and payload and consumes the whole buffer.
pub proof fn lemma_codec_round_trip(t: u8, payload: Seq<u8>, checksummed: bool)
    requires
        payload.len() <= 255,
    ensures
        spec_poll(encode_spec(t, payload, checksummed)) == (
            SpecStep::Got { t, payload, checksummed },
            Seq::<u8>::empty(),
        ),
{
    let e = encode_spec(t, payload, checksummed);
    assert(e.len() >= 2);
    assert(e[0] == 0xc1 && (e[1] == 0xae || e[1] == 0xaf));
    assert(is_sync_pair(e[0], e[1]));
    assert(find_sync(e) == Some(0int));
    assert(e.skip(0) =~= e);
    lemma_poll_exact_frame(e, 0, t, payload, checksummed);
}

/// Resynchronization law: a valid frame prefixed by arbitrary garbage that
/// contains no sync pair (including across the boundary into the frame) is
/// decoded intact, and nothing but that frame comes out: the decoder
/// retains an empty buffer.
pub proof fn lemma_decoder_resync(garbage: Seq<u8>, t: u8, payload: Seq<u8>, checksummed: bool)
    requires
        payload.len() <= 255,
        forall|j: int|
            #![trigger garbage[j]]
            0 <= j < garbage.len() ==> !is_sync_pair(
                (garbage + encode_spec(t, payload, checksummed))[j],
                (garbage + encode_spec(t, payload, checksummed))[j + 1],
            ),
    ensures
        spec_poll(garbage + encode_spec(t, payload, checksummed)) == (
            SpecStep::Got { t, payload, checksummed },
            Seq::<u8>::empty(),
        ),
{
    let e = encode_spec(t, payload, checksummed);
    let s = garbage + e;
    let g = garbage.len() as int;
    assert(e[0] == 0xc1 && (e[1] == 0xae || e[1] == 0xaf));
    assert(s[g] == e[0] && s[g + 1] == e[1]);
    assert(is_sync_pair(s[g], s[g + 1]));
    assert forall|j: int| #![trigger s[j]] 0 <= j < g implies !is_sync_pair(s[j], s[j + 1]) by {
        assert(garbage[j] == s[j]);
    }
    lemma_find_sync_at(s, g);
    assert(s.skip(g) =~= e);
    lemma_poll_exact_frame(s, g, t, payload, checksummed);
}

/// Corruption-detection law: changing any byte of a checksummed frame's
/// checksum field or payload (a single flipped bit is a special case of
/// `b != encode_spec(t, payload, true)[k]`) makes the decoder reject the
/// frame: it reports corruption and advances one byte to rescan.
pub proof fn lemma_corruption_detected(t: u8, payload: Seq<u8>, k: int, b: u8)
    requires
        payload.len() <= 255,
        4 <= k < encode_spec(t, payload, true).len(),
        b != encode_spec(t, payload, true)[k],
    ensures
        ({
            let damaged = encode_spec(t, payload, true).update(k, b);
            spec_poll(damaged) == (SpecStep::Corrupt, damaged.skip(1))
        }),
{
    let e = encode_spec(t, payload, true);
    let d = e.update(k, b);
    let len = payload.len() as int;
    assert(e.len() == 6 + len);
    assert(d.len() == 6 + len);
    assert(d[0] == 0xc1 && d[1] == 0xae);
    assert(is_sync_pair(d[0], d[1]));
    assert(find_sync(d) == Some(0int));
    assert(d.skip(0) =~= d);
    assert(sync_is_checksummed(d[0], d[1]));
    assert(d[3] as int == len);
    let bs = byte_sum(payload);
    lemma_byte_sum_bounds(payload);
    vstd::arithmetic::div_mod::lemma_fundamental_div_mod(bs, 256);
    assert(0 <= bs % 256 < 256);
    assert(e[4] as int == bs % 256);
    assert(e[5] as int == bs / 256);
    assert(e[4] + 256 * e[5] == bs);
    let stored = d[4] + 256 * d[5];
    let got = d.subrange(6, 6 + len);
    if k == 4 {
        assert(got =~= payload);
        assert(stored == b + 256 * e[5]);
        assert(stored != bs);
    } else if k == 5 {
        assert(got =~= payload);
        assert(stored == e[4] + 256 * b);
        assert(stored != bs);
    } else {
        assert(stored == bs);
        assert(got =~= payload.update(k - 6, b));
        assert(payload[k - 6] == e[k]);
        lemma_byte_sum_update(payload, k - 6, b);
        assert(byte_sum(got) == bs - e[k] + b);
        assert(byte_sum(got) != stored);
    }
    assert(byte_sum(got) != stored);
    assert(spec_poll(d).0 is Corrupt);
    assert(spec_poll(d).1 == d.skip(0).skip(1));
    assert(d.skip(0).skip(1) =~= d.skip(1));
}

} // verus!
