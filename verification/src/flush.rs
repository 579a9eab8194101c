//! Streaming compression of encoded rounds.
//!
//! A closed round's bytes are compressed with a general-purpose
//! compressor at a low/fast level before being written to the next
//! numbered output file.  Compression is lossless: decompressing a
//! compressed round gives back exactly the encoded bytes, so together
//! with the codec the whole path is bit-exact.

use vstd::prelude::*;
use vstd::string::StringExecFns;
use crate::codec::{encode_round, decode_round, round_bytes, SimResult};

verus! {

/// The character of one decimal digit.
pub open spec fn digit_char(d: nat) -> char {
    if d == 0 {
        '0'
    } else if d == 1 {
        '1'
    } else if d == 2 {
        '2'
    } else if d == 3 {
        '3'
    } else if d == 4 {
        '4'
    } else if d == 5 {
        '5'
    } else if d == 6 {
        '6'
    } else if d == 7 {
        '7'
    } else if d == 8 {
        '8'
    } else {
        '9'
    }
}

/// The decimal digits of `n`, most significant first, no leading zeros
/// (a single zero for zero).
pub open spec fn decimal(n: nat) -> Seq<char>
    decreases n,
{
    if n < 10 {
        seq![digit_char(n)]
    } else {
        decimal(n / 10).push(digit_char(n % 10))
    }
}

/// Appends the character of the decimal digit `d`.
fn append_digit(s: &mut String, d: u64)
    requires
        d < 10,
    ensures
        final(s)@ =~= old(s)@ + seq![digit_char(d as nat)],
{
    proof {
        reveal_strlit("0");
        reveal_strlit("1");
        reveal_strlit("2");
        reveal_strlit("3");
        reveal_strlit("4");
        reveal_strlit("5");
        reveal_strlit("6");
        reveal_strlit("7");
        reveal_strlit("8");
        reveal_strlit("9");
    }
    match d {
        0 => s.append("0"),
        1 => s.append("1"),
        2 => s.append("2"),
        3 => s.append("3"),
        4 => s.append("4"),
        5 => s.append("5"),
        6 => s.append("6"),
        7 => s.append("7"),
        8 => s.append("8"),
        _ => s.append("9"),
    }
}

/// Appends the decimal digits of `n`.
fn append_decimal(s: &mut String, n: u64)
    ensures
        final(s)@ =~= old(s)@ + decimal(n as nat),
    decreases n,
{
    if n < 10 {
        append_digit(s, n);
    } else {
        append_decimal(s, n / 10);
        append_digit(s, n % 10);
    }
}

/// The name of the output file a closed round is written to: the round's
/// index in decimal, with the fixed extension.
pub fn file_name(index: u64) -> (r: String)
    ensures
        r@ == decimal(index as nat) + ".bin"@,
{
    let mut s = String::new();
    append_decimal(&mut s, index);
    s.append(".bin");
    proof {
        assert(s@ =~= decimal(index as nat) + ".bin"@);
    }
    s
}

/// What decompression makes of a byte string: the compressor is a pure
/// function of its input, so the bytes it restores are too.
pub uninterp spec fn unzstd_of(c: Seq<u8>) -> Seq<u8>;

/// Compression level handed to the compressor: low/fast.
pub const COMPRESSION_LEVEL: i32 = 3;

/// Relies on zstd::stream::encode_all at a fixed level: the compression
/// is lossless, so zstd::stream::decode_all restores from its output
/// exactly the input bytes.
#[verifier::external_body]
fn zstd_compress(data: &Vec<u8>) -> (r: Option<Vec<u8>>)
    ensures
        r matches Some(v) ==> unzstd_of(v@) == data@,
{
    zstd::stream::encode_all(&data[..], COMPRESSION_LEVEL).ok()
}

/// Relies on zstd::stream::decode_all: decompression is a pure function
/// of the compressed bytes alone.
#[verifier::external_body]
fn zstd_decompress(data: &Vec<u8>) -> (r: Option<Vec<u8>>)
    ensures
        r matches Some(v) ==> v@ == unzstd_of(data@),
{
    zstd::stream::decode_all(&data[..]).ok()
}

/// Serializes and compresses one closed round.  On success the archive
/// decompresses to exactly the round's 28-byte-per-record layout; failure
/// can only come from the compressor itself, and the caller treats it as
/// fatal.
pub fn compress_round(records: &Vec<SimResult>) -> (r: Option<Vec<u8>>)
    ensures
        r matches Some(v) ==> unzstd_of(v@) == round_bytes(records@),
{
    let bytes = encode_round(records);
    zstd_compress(&bytes)
}

/// Decompresses and decodes one archived round.  On success the restored
/// records re-encode to exactly what the archive decompresses to; with
/// the codec round trip this pins them, bit for bit, to the records the
/// archive was built from.
pub fn restore_round(archive: &Vec<u8>) -> (r: Option<Vec<SimResult>>)
    ensures
        r matches Some(v) ==> round_bytes(v@) == unzstd_of(archive@),
{
    match zstd_decompress(archive) {
        Some(bytes) => decode_round(&bytes),
        None => None,
    }
}

} // verus!
