//! ISO 15765-2 transport layer: frame encoding for single-address mode on
//! classical CAN, segmentation of a logical message into CAN frames, and
//! the timing parameters dictated by flow control.

use vstd::prelude::*;

verus! {

/// Largest logical message a classical transport transfer can carry.
pub open spec fn max_pdu_len() -> nat {
    4095
}

/// Errors surfaced by the transport engine.
#[derive(Debug, Clone, Copy, PartialEq, Eq, Structural)]
pub enum IsoTpError {
    /// A deadline elapsed before the transfer finished.
    Timeout,
    /// The receiver saw a consecutive frame with the wrong sequence number.
    SequenceError,
    /// Two consecutive frames arrived closer together than the announced
    /// separation time.
    SeparationTimeViolation,
    /// The transfer was aborted: the peer signalled overflow, or a frame
    /// with an unexpected protocol control byte arrived.
    Aborted,
    /// The caller handed more bytes than one transfer can carry.
    PduTooLarge,
    /// The peer kept answering Wait beyond the allowed number of times.
    FlowControlTimeout,
    /// The underlying channel failed.
    Device(ChannelError),
}

/// Errors surfaced by a raw CAN channel.
#[derive(Debug, Clone, Copy, PartialEq, Eq, Structural)]
pub enum ChannelError {
    /// No frame arrived within the timeout.
    BufferEmpty,
    /// The adapter reported a device fault.
    DeviceError,
    /// The channel was used before being opened.
    NotOpen,
    /// A channel operation ran out of time.
    ChannelTimeout,
}

/// Transport-layer settings: the flow-control parameters this node
/// announces, padding, addressing and the paired CAN identifiers.
#[derive(Debug, Clone, Copy, PartialEq, Eq)]
pub struct IsoTpSettings {
    /// Frames the peer may send between two flow controls; zero means
    /// no limit.
    pub block_size: u8,
    /// Minimum separation time between consecutive frames, in the wire
    /// encoding (0x00-0x7F milliseconds, 0xF1-0xF9 hundreds of
    /// microseconds).
    pub st_min: u8,
    /// Pad every transmitted frame to eight bytes with 0xCC.
    pub pad_frame: bool,
    /// Optional extended-address prefix byte.
    pub ext_address: Option<u8>,
    /// CAN identifier this node transmits on.
    pub tx_id: u32,
    /// CAN identifier this node listens on.
    pub rx_id: u32,
    /// Whether the identifiers are 29-bit ones.
    pub extended_id: bool,
    /// Bit rate of the underlying CAN channel, in bits per second.
    pub can_speed: u32,
}

impl Default for IsoTpSettings {
    /// The defaults of the diagnostic link: eight frames per block,
    /// twenty milliseconds separation, padded frames, the standard
    /// request and reply identifiers, 500 kbit/s.
    fn default() -> (r: Self)
        ensures
            r.block_size == 8,
            r.st_min == 0x14,
            r.pad_frame,
            r.ext_address is None,
            r.tx_id == 0x784,
            r.rx_id == 0x7F0,
            !r.extended_id,
            r.can_speed == 500000,
    {
        IsoTpSettings {
            block_size: 8,
            st_min: 0x14,
            pad_frame: true,
            ext_address: None,
            tx_id: 0x784,
            rx_id: 0x7F0,
            extended_id: false,
            can_speed: 500000,
        }
    }
}

/// The separation time a wire byte announces, in microseconds: values up
/// to 0x7F are milliseconds, 0xF1 through 0xF9 are hundreds of
/// microseconds, and every reserved value counts as the maximum.
pub open spec fn spec_stmin_micros(st: u8) -> u64 {
    if st <= 0x7F {
        (st * 1000) as u64
    } else if 0xF1 <= st && st <= 0xF9 {
        ((st - 0xF0) * 100) as u64
    } else {
        127000
    }
}

/// Decodes a separation-time byte into microseconds.
pub fn stmin_micros(st: u8) -> (r: u64)
    ensures
        r == spec_stmin_micros(st),
{
    if st <= 0x7F {
        st as u64 * 1000
    } else if 0xF1 <= st && st <= 0xF9 {
        (st as u64 - 0xF0) * 100
    } else {
        127000
    }
}

/// Whether the gap between two consecutive frames honours the announced
/// separation time. A separation time of zero accepts back-to-back
/// frames.
pub fn separation_ok(delta_micros: u64, st_min: u8) -> (r: bool)
    ensures
        r == (delta_micros >= spec_stmin_micros(st_min)),
        st_min == 0 ==> r,
{
    delta_micros >= stmin_micros(st_min)
}

/// Single-frame data: the length nibble followed by the payload.
pub open spec fn sf_data(p: Seq<u8>) -> Seq<u8> {
    seq![p.len() as u8] + p
}

/// First-frame data: 0x1 in the high nibble, the 12-bit length, then the
/// first six payload bytes.
pub open spec fn ff_data(p: Seq<u8>) -> Seq<u8> {
    seq![(0x10 + p.len() / 0x100) as u8, (p.len() % 0x100) as u8] + p.take(6)
}

/// Number of consecutive frames needed after the first frame.
pub open spec fn num_cf(len: nat) -> nat {
    len / 7
}

/// Sequence number of the k-th consecutive frame: starts at one after
/// the first frame and wraps modulo sixteen.
pub open spec fn cf_sn(k: nat) -> u8 {
    (((k + 1) % 16) as u8)
}

/// Payload slice carried by the k-th consecutive frame.
pub open spec fn cf_payload(p: Seq<u8>, k: nat) -> Seq<u8> {
    p.subrange(6 + 7 * (k as int), if 6 + 7 * (k as int) + 7 <= p.len() {
        6 + 7 * (k as int) + 7
    } else {
        p.len() as int
    })
}

/// Consecutive-frame data: 0x2 in the high nibble with the sequence
/// number, then the payload slice.
pub open spec fn cf_data(p: Seq<u8>, k: nat) -> Seq<u8> {
    seq![(0x20 + cf_sn(k)) as u8] + cf_payload(p, k)
}

/// Bytes the next consecutive frame must carry: seven, or all that
/// remain of the announced total.
pub open spec fn cf_need_of(expected: nat, got: nat) -> nat {
    if expected - got >= 7 {
        7
    } else {
        (expected - got) as nat
    }
}

/// Frame data extended to eight bytes with 0xCC when padding is on.
pub open spec fn pad8(d: Seq<u8>, pad: bool) -> Seq<u8> {
    if pad && d.len() < 8 {
        d + Seq::new((8 - d.len()) as nat, |i: int| 0xCCu8)
    } else {
        d
    }
}

/// The complete frame sequence that carries a payload: one single frame
/// for up to seven bytes, else a first frame followed by its consecutive
/// frames.
pub open spec fn segment_spec(p: Seq<u8>, pad: bool) -> Seq<Seq<u8>> {
    if p.len() <= 7 {
        seq![pad8(sf_data(p), pad)]
    } else {
        seq![pad8(ff_data(p), pad)] + Seq::new(num_cf(p.len()), |k: int| pad8(cf_data(p, k as nat), pad))
    }
}

/// Extends a frame to eight bytes with 0xCC when padding is on.
fn pad_to_8(v: &mut Vec<u8>, pad: bool)
    requires
        old(v)@.len() <= 8,
    ensures
        final(v)@ == pad8(old(v)@, pad),
{
    let ghost d = v@;
    if pad {
        while v.len() < 8
            invariant
                d.len() <= 8,
                d.len() <= v@.len() <= 8,
                v@ == d + Seq::new((v@.len() - d.len()) as nat, |i: int| 0xCCu8),
            decreases 8 - v@.len(),
        {
            v.push(0xCC);
            proof {
                assert(v@ =~= d + Seq::new((v@.len() - d.len()) as nat, |i: int| 0xCCu8));
            }
        }
        proof {
            if d.len() == 8 {
                assert(v@ =~= d);
                assert(pad8(d, pad) == d);
            } else {
                assert(v@ == pad8(d, pad));
            }
        }
    } else {
        proof {
            assert(v@ =~= d + Seq::new(0, |i: int| 0xCCu8));
        }
    }
}

/// Copies `p[from..to]` onto the end of `v`.
pub(crate) fn extend_from_slice_range(v: &mut Vec<u8>, p: &[u8], from: usize, to: usize)
    requires
        from <= to <= p@.len(),
    ensures
        final(v)@ == old(v)@ + p@.subrange(from as int, to as int),
{
    let ghost d = old(v)@;
    let mut i = from;
    while i < to
        invariant
            from <= i <= to <= p@.len(),
            v@ == d + p@.subrange(from as int, i as int),
        decreases to - i,
    {
        v.push(p[i]);
        proof {
            assert(d + p@.subrange(from as int, i + 1) =~= (d + p@.subrange(
                from as int,
                i as int,
            )).push(p@[i as int]));
        }
        i = i + 1;
    }
}

/// Encodes a single frame for a payload of at most seven bytes.
pub fn encode_single_frame(p: &[u8], pad: bool) -> (r: Vec<u8>)
    requires
        p@.len() <= 7,
    ensures
        r@ == pad8(sf_data(p@), pad),
{
    let mut v: Vec<u8> = Vec::new();
    v.push(p.len() as u8);
    extend_from_slice_range(&mut v, p, 0, p.len());
    proof {
        assert(p@.subrange(0, p@.len() as int) =~= p@);
        assert(v@ =~= sf_data(p@));
    }
    pad_to_8(&mut v, pad);
    v
}

/// Encodes the first frame of a segmented payload.
pub fn encode_first_frame(p: &[u8], pad: bool) -> (r: Vec<u8>)
    requires
        8 <= p@.len() <= max_pdu_len(),
    ensures
        r@ == pad8(ff_data(p@), pad),
        r@.len() == 8,
{
    let mut v: Vec<u8> = Vec::new();
    let len = p.len();
    v.push(0x10 + (len / 0x100) as u8);
    v.push((len % 0x100) as u8);
    extend_from_slice_range(&mut v, p, 0, 6);
    proof {
        assert(p@.subrange(0, 6) =~= p@.take(6));
        assert(v@ =~= ff_data(p@));
        assert(pad8(v@, pad) == v@);
    }
    v
}

/// Encodes the k-th consecutive frame of a segmented payload.
pub fn encode_consecutive_frame(p: &[u8], k: usize, pad: bool) -> (r: Vec<u8>)
    requires
        8 <= p@.len() <= max_pdu_len(),
        k < num_cf(p@.len() as nat),
    ensures
        r@ == pad8(cf_data(p@, k as nat), pad),
{
    let len = p.len();
    let start = 6 + 7 * k;
    let end = if start + 7 <= len {
        start + 7
    } else {
        len
    };
    proof {
        assert(7 * k < 7 * num_cf(p@.len() as nat));
        assert(7 * num_cf(p@.len() as nat) <= p@.len()) by (nonlinear_arith)
            requires
                num_cf(p@.len() as nat) == p@.len() as nat / 7,
        ;
        assert(start < len);
    }
    let mut v: Vec<u8> = Vec::new();
    let sn = ((k + 1) % 16) as u8;
    v.push(0x20 + sn);
    extend_from_slice_range(&mut v, p, start, end);
    proof {
        assert(sn == cf_sn(k as nat));
        assert(v@ =~= cf_data(p@, k as nat));
        assert(v@.len() <= 8);
    }
    pad_to_8(&mut v, pad);
    v
}

/// Encodes a clear-to-send flow control announcing this node's block
/// size and separation time.
pub fn encode_flow_control_cts(block_size: u8, st_min: u8, pad: bool) -> (r: Vec<u8>)
    ensures
        r@ == pad8(seq![0x30u8, block_size, st_min], pad),
{
    let mut v: Vec<u8> = Vec::new();
    v.push(0x30);
    v.push(block_size);
    v.push(st_min);
    proof {
        assert(v@ =~= seq![0x30u8, block_size, st_min]);
    }
    pad_to_8(&mut v, pad);
    v
}

/// Encodes the Wait flow control sent while another transfer is in
/// progress.
pub fn encode_flow_control_wait(pad: bool) -> (r: Vec<u8>)
    ensures
        r@ == pad8(seq![0x32u8], pad),
{
    let mut v: Vec<u8> = Vec::new();
    v.push(0x32);
    proof {
        assert(v@ =~= seq![0x32u8]);
    }
    pad_to_8(&mut v, pad);
    v
}

/// The payload views of a sequence of owned frame buffers.
pub open spec fn frame_views(s: Seq<Vec<u8>>) -> Seq<Seq<u8>> {
    s.map_values(|v: Vec<u8>| v@)
}

/// The view sequence indexes to each buffer's view.
pub broadcast proof fn lemma_frame_views_index(s: Seq<Vec<u8>>, i: int)
    requires
        0 <= i < s.len(),
    ensures
        #[trigger] frame_views(s)[i] == s[i]@,
        frame_views(s).len() == s.len(),
{
}

/// The view sequence has the buffers' length.
pub broadcast proof fn lemma_frame_views_len(s: Seq<Vec<u8>>)
    ensures
        #[trigger] frame_views(s).len() == s.len(),
{
}

/// Segments a payload into the frame sequence that carries it.
pub fn segment_pdu(payload: &[u8], pad: bool) -> (r: Result<Vec<Vec<u8>>, IsoTpError>)
    ensures
        payload@.len() <= max_pdu_len() ==> r is Ok && frame_views(r->Ok_0@) == segment_spec(
            payload@,
            pad,
        ),
        payload@.len() > max_pdu_len() ==> r == Err::<Vec<Vec<u8>>, IsoTpError>(
            IsoTpError::PduTooLarge,
        ),
{
    let len = payload.len();
    if len > 4095 {
        return Err(IsoTpError::PduTooLarge);
    }
    let mut frames: Vec<Vec<u8>> = Vec::new();
    if len <= 7 {
        frames.push(encode_single_frame(payload, pad));
        proof {
            assert(frame_views(frames@) =~~= segment_spec(payload@, pad));
        }
        return Ok(frames);
    }
    frames.push(encode_first_frame(payload, pad));
    let n_cf = len / 7;
    let mut k: usize = 0;
    while k < n_cf
        invariant
            8 <= len == payload@.len() <= max_pdu_len(),
            n_cf == num_cf(payload@.len() as nat),
            k <= n_cf,
            frame_views(frames@) == seq![pad8(ff_data(payload@), pad)] + Seq::new(
                k as nat,
                |j: int| pad8(cf_data(payload@, j as nat), pad),
            ),
        decreases n_cf - k,
    {
        let ghost pre = frames@;
        let cf = encode_consecutive_frame(payload, k, pad);
        let ghost cfv = cf@;
        frames.push(cf);
        proof {
            lemma_frame_views_len(frames@);
            lemma_frame_views_len(pre);
            assert forall|j: int| 0 <= j < k + 2 implies frame_views(frames@)[j] == (seq![
                pad8(ff_data(payload@), pad),
            ] + Seq::new((k + 1) as nat, |j: int| pad8(cf_data(payload@, j as nat), pad)))[j] by {
                lemma_frame_views_index(frames@, j);
                if j < k + 1 {
                    assert(frames@[j] == pre[j]);
                    lemma_frame_views_index(pre, j);
                } else {
                    assert(frames@[j]@ == cfv);
                }
            }
            assert(frame_views(frames@) =~= seq![pad8(ff_data(payload@), pad)] + Seq::new(
                (k + 1) as nat,
                |j: int| pad8(cf_data(payload@, j as nat), pad),
            ));
        }
        k = k + 1;
    }
    proof {
        assert(frame_views(frames@) =~= segment_spec(payload@, pad));
    }
    Ok(frames)
}

/// A payload of up to seven bytes travels as one single frame; a longer
/// payload takes a first frame followed by `len / 7` consecutive frames.
pub proof fn lemma_frame_counts(p: Seq<u8>)
    requires
        p.len() <= max_pdu_len(),
    ensures
        p.len() <= 7 ==> segment_spec(p, false).len() == 1 && segment_spec(p, true).len() == 1,
        p.len() > 7 ==> segment_spec(p, false).len() == 1 + p.len() / 7 && segment_spec(
            p,
            true,
        ).len() == 1 + p.len() / 7,
{
}

/// Consecutive frames carry consecutive sequence numbers: each one's
/// number is the previous one's plus one, modulo sixteen.
pub proof fn lemma_cf_sequence_numbers(k: nat)
    ensures
        cf_sn(k + 1) == ((cf_sn(k) + 1) % 16) as u8,
{
}


/// Every separation time the wire can announce is at most 127
/// milliseconds.
pub proof fn lemma_stmin_bound(st: u8)
    ensures
        spec_stmin_micros(st) <= 127000,
{
}

/// Shape of a single frame: the protocol control nibble is zero, the
/// length nibble holds the payload length, and the payload follows
/// unchanged, whatever the padding.
pub proof fn lemma_sf_shape(p: Seq<u8>, pad: bool)
    requires
        p.len() <= 7,
    ensures
        pad8(sf_data(p), pad).len() >= 1 + p.len(),
        pad8(sf_data(p), pad)[0] == p.len() as u8,
        pad8(sf_data(p), pad)[0] / 16 == 0,
        pad8(sf_data(p), pad)[0] % 16 == p.len(),
        pad8(sf_data(p), pad).subrange(1, 1 + p.len() as int) == p,
{
    let d = sf_data(p);
    let pd = pad8(d, pad);
    assert(d[0] == p.len() as u8);
    assert(pd[0] == d[0]);
    assert(pd.subrange(1, 1 + p.len() as int) =~= p);
}

/// Shape of a first frame: always a full eight bytes, protocol control
/// nibble one, the twelve-bit length split over the first two bytes,
/// and the first six payload bytes after them.
pub proof fn lemma_ff_shape(p: Seq<u8>, pad: bool)
    requires
        8 <= p.len() <= max_pdu_len(),
    ensures
        pad8(ff_data(p), pad) == ff_data(p),
        ff_data(p).len() == 8,
        ff_data(p)[0] / 16 == 1,
        (ff_data(p)[0] % 16) * 0x100 + ff_data(p)[1] == p.len(),
        ff_data(p).subrange(2, 8) == p.take(6),
{
    let d = ff_data(p);
    assert(d.len() == 8);
    assert(d[0] == (0x10 + p.len() / 0x100) as u8);
    assert(d[1] == (p.len() % 0x100) as u8);
    assert(p.len() / 0x100 <= 15);
    assert(d.subrange(2, 8) =~= p.take(6));
}

/// Shape of the k-th consecutive frame: protocol control nibble two,
/// the sequence number in the low nibble, and the payload slice after
/// the first byte; the slice starts inside the message and extends the
/// collected prefix.
pub proof fn lemma_cf_shape(p: Seq<u8>, k: nat, pad: bool)
    requires
        8 <= p.len() <= max_pdu_len(),
        k < num_cf(p.len() as nat),
    ensures
        6 + 7 * k < p.len(),
        cf_payload(p, k).len() == cf_need_of(p.len() as nat, (6 + 7 * k) as nat),
        pad8(cf_data(p, k), pad).len() >= 1 + cf_payload(p, k).len(),
        pad8(cf_data(p, k), pad)[0] / 16 == 2,
        pad8(cf_data(p, k), pad)[0] % 16 == cf_sn(k),
        pad8(cf_data(p, k), pad).subrange(1, 1 + cf_payload(p, k).len() as int) == cf_payload(
            p,
            k,
        ),
        p.take(6 + 7 * (k as int)) + cf_payload(p, k) == p.take(
            if 6 + 7 * (k as int) + 7 <= p.len() {
                6 + 7 * (k as int) + 7
            } else {
                p.len() as int
            },
        ),
{
    vstd::arithmetic::div_mod::lemma_fundamental_div_mod(p.len() as int, 7);
    assert(7 * (p.len() as int / 7) == 7 * (num_cf(p.len() as nat) as int));
    assert(6 + 7 * k < p.len());
    let d = cf_data(p, k);
    let pd = pad8(d, pad);
    assert(d[0] == (0x20 + cf_sn(k)) as u8);
    assert(cf_sn(k) < 16);
    assert(pd[0] == d[0]);
    assert(pd.subrange(1, 1 + cf_payload(p, k).len() as int) =~= cf_payload(p, k));
    let hi = if 6 + 7 * (k as int) + 7 <= p.len() {
        6 + 7 * (k as int) + 7
    } else {
        p.len() as int
    };
    assert(p.take(6 + 7 * (k as int)) + cf_payload(p, k) =~= p.take(hi));
}


/// The transmit side never emits a consecutive frame whose sequence
/// number differs from the previous consecutive frame's plus one,
/// modulo sixteen: in the emitted frame sequence, each consecutive
/// frame's low nibble is the successor of its predecessor's.
pub proof fn lemma_successive_cf_sn(p: Seq<u8>, pad: bool, i: int)
    requires
        8 <= p.len() <= max_pdu_len(),
        1 <= i,
        i + 1 < segment_spec(p, pad).len(),
    ensures
        segment_spec(p, pad)[i + 1][0] % 16 == (segment_spec(p, pad)[i][0] % 16 + 1) % 16,
{
    lemma_cf_shape(p, (i - 1) as nat, pad);
    lemma_cf_shape(p, i as nat, pad);
    assert(segment_spec(p, pad)[i] == pad8(cf_data(p, (i - 1) as nat), pad));
    assert(segment_spec(p, pad)[i + 1] == pad8(cf_data(p, i as nat), pad));
    vstd::arithmetic::div_mod::lemma_add_mod_noop(i, 1, 16);
    vstd::arithmetic::div_mod::lemma_mod_twice(i, 16);
    assert((i + 1) % 16 == (i % 16 + 1int % 16) % 16);
}

} // verus!
