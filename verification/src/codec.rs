//! The fixed-width binary record format.
//!
//! Each result record serializes to exactly 28 bytes: seven little-endian
//! 32-bit fields in fixed order — angular velocity x, y, z; target pitch,
//! yaw, roll; elapsed time.  Records are concatenated in round order with
//! no padding, no header and no trailer.  Each field carries the 32-bit
//! (IEEE-754 single-precision) pattern of the recorded value as plain
//! bits, so encoding and decoding are bit-exact inverses.

use vstd::prelude::*;

verus! {

/// One labeled training record, immutable once produced: the initial
/// angular velocity in the vehicle's own frame at scenario start, the
/// target orientation relative to that start, and the elapsed convergence
/// time in seconds.  Each field is the 32-bit pattern of the value.
#[derive(Clone, Copy, Debug, PartialEq, Eq, Structural)]
pub struct SimResult {
    pub ang_vel_x: u32,
    pub ang_vel_y: u32,
    pub ang_vel_z: u32,
    pub target_pitch: u32,
    pub target_yaw: u32,
    pub target_roll: u32,
    pub time: u32,
}

/// The four little-endian bytes of one 32-bit field.
pub open spec fn le32(x: u32) -> Seq<u8> {
    seq![
        (x & 0xff) as u8,
        ((x >> 8) & 0xff) as u8,
        ((x >> 16) & 0xff) as u8,
        ((x >> 24) & 0xff) as u8,
    ]
}

/// The 32-bit field stored in four little-endian bytes.
pub open spec fn get32(b0: u8, b1: u8, b2: u8, b3: u8) -> u32 {
    (b0 as u32) | ((b1 as u32) << 8) | ((b2 as u32) << 16) | ((b3 as u32) << 24)
}

/// The 28 bytes of one record: seven little-endian fields in fixed order.
pub open spec fn record_bytes(r: SimResult) -> Seq<u8> {
    le32(r.ang_vel_x) + le32(r.ang_vel_y) + le32(r.ang_vel_z) + le32(r.target_pitch) + le32(
        r.target_yaw,
    ) + le32(r.target_roll) + le32(r.time)
}

/// The bytes of a whole round: its records concatenated in order.
pub open spec fn round_bytes(rs: Seq<SimResult>) -> Seq<u8>
    decreases rs.len(),
{
    if rs.len() == 0 {
        Seq::empty()
    } else {
        record_bytes(rs[0]) + round_bytes(rs.drop_first())
    }
}

/// A round's byte count is 28 per record.
pub proof fn lemma_round_bytes_len(rs: Seq<SimResult>)
    ensures
        round_bytes(rs).len() == 28 * rs.len(),
    decreases rs.len(),
{
    if rs.len() > 0 {
        lemma_round_bytes_len(rs.drop_first());
    }
}

/// Appending one record appends its 28 bytes.
pub proof fn lemma_round_bytes_push(rs: Seq<SimResult>, r: SimResult)
    ensures
        round_bytes(rs.push(r)) == round_bytes(rs) + record_bytes(r),
    decreases rs.len(),
{
    if rs.len() == 0 {
        assert(rs.push(r)[0] == r);
        assert(rs.push(r).drop_first() =~= rs);
        assert(round_bytes(rs) == Seq::<u8>::empty());
        assert(round_bytes(rs.push(r)) =~= round_bytes(rs) + record_bytes(r));
    } else {
        lemma_round_bytes_push(rs.drop_first(), r);
        assert(rs.push(r).drop_first() =~= rs.drop_first().push(r));
        assert(rs.push(r)[0] == rs[0]);
        assert(round_bytes(rs.push(r)) =~= round_bytes(rs) + record_bytes(r));
    }
}

/// Unpacking the packed bytes of a field gives the bytes back.
proof fn lemma_le32_get32(b0: u8, b1: u8, b2: u8, b3: u8)
    ensures
        le32(get32(b0, b1, b2, b3)) =~= seq![b0, b1, b2, b3],
{
    assert(((b0 as u32) | ((b1 as u32) << 8) | ((b2 as u32) << 16) | ((b3 as u32) << 24)) & 0xff
        == b0 as u32) by (bit_vector);
    assert((((b0 as u32) | ((b1 as u32) << 8) | ((b2 as u32) << 16) | ((b3 as u32) << 24)) >> 8)
        & 0xff == b1 as u32) by (bit_vector);
    assert((((b0 as u32) | ((b1 as u32) << 8) | ((b2 as u32) << 16) | ((b3 as u32) << 24)) >> 16)
        & 0xff == b2 as u32) by (bit_vector);
    assert((((b0 as u32) | ((b1 as u32) << 8) | ((b2 as u32) << 16) | ((b3 as u32) << 24)) >> 24)
        & 0xff == b3 as u32) by (bit_vector);
}

/// Repacking the unpacked bytes of a field gives the field back.
proof fn lemma_get32_le32(x: u32)
    ensures
        get32(
            (x & 0xff) as u8,
            ((x >> 8) & 0xff) as u8,
            ((x >> 16) & 0xff) as u8,
            ((x >> 24) & 0xff) as u8,
        ) == x,
{
    assert((((x & 0xff) as u8 as u32) | ((((x >> 8) & 0xff) as u8 as u32) << 8) | ((((x >> 16)
        & 0xff) as u8 as u32) << 16) | ((((x >> 24) & 0xff) as u8 as u32) << 24)) == x)
        by (bit_vector);
}

/// A field is determined by its bytes.
proof fn lemma_le32_injective(x: u32, y: u32)
    requires
        le32(x) == le32(y),
    ensures
        x == y,
{
    lemma_get32_le32(x);
    lemma_get32_le32(y);
    assert(le32(x)[0] == le32(y)[0]);
    assert(le32(x)[1] == le32(y)[1]);
    assert(le32(x)[2] == le32(y)[2]);
    assert(le32(x)[3] == le32(y)[3]);
}

/// One field's bytes within a record's bytes.
proof fn lemma_field_slice(a: SimResult, b: SimResult, f: Seq<u8>, g: Seq<u8>, off: int)
    requires
        record_bytes(a) == record_bytes(b),
        0 <= off <= 24,
        forall|j: int| 0 <= j < 4 ==> f[j] == record_bytes(a)[off + j],
        forall|j: int| 0 <= j < 4 ==> g[j] == record_bytes(b)[off + j],
        f.len() == 4,
        g.len() == 4,
    ensures
        f == g,
{
    assert(f =~= g);
}

/// A record is determined by its bytes.
proof fn lemma_record_bytes_injective(a: SimResult, b: SimResult)
    requires
        record_bytes(a) == record_bytes(b),
    ensures
        a == b,
{
    lemma_field_slice(a, b, le32(a.ang_vel_x), le32(b.ang_vel_x), 0);
    lemma_le32_injective(a.ang_vel_x, b.ang_vel_x);
    lemma_field_slice(a, b, le32(a.ang_vel_y), le32(b.ang_vel_y), 4);
    lemma_le32_injective(a.ang_vel_y, b.ang_vel_y);
    lemma_field_slice(a, b, le32(a.ang_vel_z), le32(b.ang_vel_z), 8);
    lemma_le32_injective(a.ang_vel_z, b.ang_vel_z);
    lemma_field_slice(a, b, le32(a.target_pitch), le32(b.target_pitch), 12);
    lemma_le32_injective(a.target_pitch, b.target_pitch);
    lemma_field_slice(a, b, le32(a.target_yaw), le32(b.target_yaw), 16);
    lemma_le32_injective(a.target_yaw, b.target_yaw);
    lemma_field_slice(a, b, le32(a.target_roll), le32(b.target_roll), 20);
    lemma_le32_injective(a.target_roll, b.target_roll);
    lemma_field_slice(a, b, le32(a.time), le32(b.time), 24);
    lemma_le32_injective(a.time, b.time);
}

/// Round trip: a round is determined, record for record and bit for bit,
/// by its encoded bytes, so decoding what was encoded reproduces the same
/// records in the original order.
pub proof fn lemma_round_bytes_injective(a: Seq<SimResult>, b: Seq<SimResult>)
    requires
        round_bytes(a) == round_bytes(b),
    ensures
        a == b,
    decreases a.len(),
{
    lemma_round_bytes_len(a);
    lemma_round_bytes_len(b);
    if a.len() == 0 {
        assert(a =~= b);
    } else {
        assert(record_bytes(a[0]) =~= record_bytes(b[0])) by {
            assert forall|j: int| 0 <= j < 28 implies record_bytes(a[0])[j] == record_bytes(
                b[0],
            )[j] by {
                assert(round_bytes(a)[j] == record_bytes(a[0])[j]);
                assert(round_bytes(b)[j] == record_bytes(b[0])[j]);
            }
        }
        lemma_record_bytes_injective(a[0], b[0]);
        assert(round_bytes(a.drop_first()) =~= round_bytes(b.drop_first())) by {
            lemma_round_bytes_len(a.drop_first());
            lemma_round_bytes_len(b.drop_first());
            assert forall|j: int| 0 <= j < round_bytes(a.drop_first()).len() implies round_bytes(
                a.drop_first(),
            )[j] == round_bytes(b.drop_first())[j] by {
                assert(round_bytes(a)[28 + j] == round_bytes(a.drop_first())[j]);
                assert(round_bytes(b)[28 + j] == round_bytes(b.drop_first())[j]);
            }
        }
        lemma_round_bytes_injective(a.drop_first(), b.drop_first());
        assert forall|j: int| 0 <= j < a.len() implies a[j] == b[j] by {
            if j > 0 {
                assert(a[j] == a.drop_first()[j - 1]);
                assert(b[j] == b.drop_first()[j - 1]);
            }
        }
        assert(a =~= b);
    }
}

/// Appends the four little-endian bytes of one field.
fn push_le32(out: &mut Vec<u8>, x: u32)
    ensures
        final(out)@ =~= old(out)@ + le32(x),
{
    out.push((x & 0xff) as u8);
    out.push(((x >> 8) & 0xff) as u8);
    out.push(((x >> 16) & 0xff) as u8);
    out.push(((x >> 24) & 0xff) as u8);
    proof {
        assert(out@ =~= old(out)@ + le32(x));
    }
}

/// Serializes a round into its binary layout: 28 bytes per record,
/// concatenated in round order.
pub fn encode_round(rs: &Vec<SimResult>) -> (out: Vec<u8>)
    ensures
        out@ == round_bytes(rs@),
        out@.len() == 28 * rs@.len(),
{
    let mut out: Vec<u8> = Vec::new();
    let mut i: usize = 0;
    while i < rs.len()
        invariant
            i <= rs@.len(),
            out@ == round_bytes(rs@.take(i as int)),
        decreases rs@.len() - i,
    {
        let r = rs[i];
        push_le32(&mut out, r.ang_vel_x);
        push_le32(&mut out, r.ang_vel_y);
        push_le32(&mut out, r.ang_vel_z);
        push_le32(&mut out, r.target_pitch);
        push_le32(&mut out, r.target_yaw);
        push_le32(&mut out, r.target_roll);
        push_le32(&mut out, r.time);
        proof {
            lemma_round_bytes_push(rs@.take(i as int), rs@[i as int]);
            assert(rs@.take(i as int).push(rs@[i as int]) =~= rs@.take(i as int + 1));
            assert(out@ =~= round_bytes(rs@.take(i as int)) + record_bytes(rs@[i as int]));
        }
        i = i + 1;
    }
    proof {
        assert(rs@.take(rs@.len() as int) =~= rs@);
        lemma_round_bytes_len(rs@);
    }
    out
}

/// Reads one little-endian 32-bit field at `off`.
fn read32(bytes: &Vec<u8>, off: usize) -> (x: u32)
    requires
        off + 4 <= bytes@.len(),
        bytes@.len() <= usize::MAX,
    ensures
        x == get32(bytes@[off as int], bytes@[off + 1], bytes@[off + 2], bytes@[off + 3]),
{
    (bytes[off] as u32) | ((bytes[off + 1] as u32) << 8) | ((bytes[off + 2] as u32) << 16) | ((
    bytes[off + 3] as u32) << 24)
}

/// Parses a decompressed buffer back into records.  The buffer decodes
/// exactly when it is a whole number of 28-byte records; the decoded round
/// re-encodes to the very same bytes.
#[verifier::rlimit(50)]
pub fn decode_round(bytes: &Vec<u8>) -> (r: Option<Vec<SimResult>>)
    ensures
        match r {
            Some(v) => round_bytes(v@) == bytes@ && 28 * v@.len() == bytes@.len(),
            None => bytes@.len() % 28 != 0,
        },
{
    if bytes.len() % 28 != 0 {
        return None;
    }
    let n: usize = bytes.len() / 28;
    let mut v: Vec<SimResult> = Vec::new();
    let mut i: usize = 0;
    while i < n
        invariant
            i <= n,
            28 * n == bytes@.len(),
            bytes@.len() <= usize::MAX,
            v@.len() == i,
            round_bytes(v@) =~= bytes@.take(28 * i as int),
        decreases n - i,
    {
        let base: usize = 28 * i;
        let rec = SimResult {
            ang_vel_x: read32(bytes, base),
            ang_vel_y: read32(bytes, base + 4),
            ang_vel_z: read32(bytes, base + 8),
            target_pitch: read32(bytes, base + 12),
            target_yaw: read32(bytes, base + 16),
            target_roll: read32(bytes, base + 20),
            time: read32(bytes, base + 24),
        };
        proof {
            let b = bytes@;
            let base_i = base as int;
            lemma_le32_get32(b[base_i], b[base_i + 1], b[base_i + 2], b[base_i + 3]);
            lemma_le32_get32(b[base_i + 4], b[base_i + 5], b[base_i + 6], b[base_i + 7]);
            lemma_le32_get32(b[base_i + 8], b[base_i + 9], b[base_i + 10], b[base_i + 11]);
            lemma_le32_get32(b[base_i + 12], b[base_i + 13], b[base_i + 14], b[base_i + 15]);
            lemma_le32_get32(b[base_i + 16], b[base_i + 17], b[base_i + 18], b[base_i + 19]);
            lemma_le32_get32(b[base_i + 20], b[base_i + 21], b[base_i + 22], b[base_i + 23]);
            lemma_le32_get32(b[base_i + 24], b[base_i + 25], b[base_i + 26], b[base_i + 27]);
            assert(record_bytes(rec) =~= b.subrange(base_i, base_i + 28));
            lemma_round_bytes_push(v@, rec);
            assert(round_bytes(v@.push(rec)) =~= b.take(28 * (i as int + 1)));
        }
        v.push(rec);
        i = i + 1;
    }
    proof {
        assert(bytes@.take(28 * n as int) =~= bytes@);
    }
    Some(v)
}

} // verus!
