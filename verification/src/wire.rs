//! Byte-level encoding primitives shared by the framing codec, the control
//! protocol and the state-sync record: big-endian integers, length-prefixed
//! byte strings, and their inverse parsers, each with a round-trip lemma.

use vstd::prelude::*;

verus! {

// ---------------------------------------------------------------------------
// Big-endian 16-bit integers (the frame length prefix).
// ---------------------------------------------------------------------------

/// The two big-endian bytes of a 16-bit integer.
pub open spec fn be16_bytes(x: u16) -> Seq<u8> {
    seq![(x / 256) as u8, (x % 256) as u8]
}

/// The 16-bit integer read from two big-endian bytes.
pub open spec fn be16_val(s: Seq<u8>) -> u16
    recommends
        s.len() == 2,
{
    (s[0] * 256 + s[1]) as u16
}

pub proof fn lemma_be16_round_trip(x: u16)
    ensures
        be16_val(be16_bytes(x)) == x,
{
    assert((x / 256) * 256 + x % 256 == x) by (nonlinear_arith);
}

// ---------------------------------------------------------------------------
// Big-endian 64-bit integers (field lengths, heights, ports).
// ---------------------------------------------------------------------------

/// The eight big-endian bytes of a 64-bit integer.
pub open spec fn be64_bytes(x: u64) -> Seq<u8> {
    seq![
        ((x >> 56) & 0xff) as u8,
        ((x >> 48) & 0xff) as u8,
        ((x >> 40) & 0xff) as u8,
        ((x >> 32) & 0xff) as u8,
        ((x >> 24) & 0xff) as u8,
        ((x >> 16) & 0xff) as u8,
        ((x >> 8) & 0xff) as u8,
        (x & 0xff) as u8,
    ]
}

/// The 64-bit integer read from eight big-endian bytes.
pub open spec fn be64_val(s: Seq<u8>) -> u64
    recommends
        s.len() == 8,
{
    ((s[0] as u64) << 56 | (s[1] as u64) << 48 | (s[2] as u64) << 40 | (s[3] as u64) << 32
        | (s[4] as u64) << 24 | (s[5] as u64) << 16 | (s[6] as u64) << 8 | (s[7] as u64))
}

pub proof fn lemma_be64_round_trip(x: u64)
    ensures
        be64_val(be64_bytes(x)) == x,
{
    let b0 = ((x >> 56) & 0xff) as u8;
    let b1 = ((x >> 48) & 0xff) as u8;
    let b2 = ((x >> 40) & 0xff) as u8;
    let b3 = ((x >> 32) & 0xff) as u8;
    let b4 = ((x >> 24) & 0xff) as u8;
    let b5 = ((x >> 16) & 0xff) as u8;
    let b6 = ((x >> 8) & 0xff) as u8;
    let b7 = (x & 0xff) as u8;
    assert(((b0 as u64) << 56 | (b1 as u64) << 48 | (b2 as u64) << 40 | (b3 as u64) << 32
        | (b4 as u64) << 24 | (b5 as u64) << 16 | (b6 as u64) << 8 | (b7 as u64)) == x)
        by (bit_vector)
        requires
            b0 == ((x >> 56) & 0xff) as u8,
            b1 == ((x >> 48) & 0xff) as u8,
            b2 == ((x >> 40) & 0xff) as u8,
            b3 == ((x >> 32) & 0xff) as u8,
            b4 == ((x >> 24) & 0xff) as u8,
            b5 == ((x >> 16) & 0xff) as u8,
            b6 == ((x >> 8) & 0xff) as u8,
            b7 == (x & 0xff) as u8,
    ;
}

// ---------------------------------------------------------------------------
// Spec-level encoders. A parser consumes a prefix of a byte sequence and
// returns the value together with the unconsumed remainder.
// ---------------------------------------------------------------------------

pub open spec fn enc_u8(x: u8) -> Seq<u8> {
    seq![x]
}

pub open spec fn enc_u64(x: u64) -> Seq<u8> {
    be64_bytes(x)
}

/// A length-prefixed byte string: 8-byte big-endian length, then the bytes.
pub open spec fn enc_bytes(b: Seq<u8>) -> Seq<u8>
    recommends
        b.len() <= u64::MAX,
{
    enc_u64(b.len() as u64) + b
}

pub open spec fn dec_u8(s: Seq<u8>) -> Option<(u8, Seq<u8>)> {
    if s.len() >= 1 {
        Some((s[0], s.skip(1)))
    } else {
        None
    }
}

pub open spec fn dec_u64(s: Seq<u8>) -> Option<(u64, Seq<u8>)> {
    if s.len() >= 8 {
        Some((be64_val(s.take(8)), s.skip(8)))
    } else {
        None
    }
}

pub open spec fn dec_bytes(s: Seq<u8>) -> Option<(Seq<u8>, Seq<u8>)> {
    match dec_u64(s) {
        None => None,
        Some((n, r)) => if r.len() >= n {
            Some((r.take(n as int), r.skip(n as int)))
        } else {
            None
        },
    }
}

// ---------------------------------------------------------------------------
// Round-trip lemmas: parsing an encoding followed by arbitrary trailing
// bytes yields the encoded value and exactly those trailing bytes.
// ---------------------------------------------------------------------------

pub proof fn lemma_dec_u8(x: u8, rest: Seq<u8>)
    ensures
        dec_u8(enc_u8(x) + rest) == Some((x, rest)),
{
    let s = enc_u8(x) + rest;
    assert(s[0] == x);
    assert(s.skip(1) =~= rest);
}

pub proof fn lemma_dec_u64(x: u64, rest: Seq<u8>)
    ensures
        dec_u64(enc_u64(x) + rest) == Some((x, rest)),
{
    let s = enc_u64(x) + rest;
    assert(s.take(8) =~= enc_u64(x));
    assert(s.skip(8) =~= rest);
    lemma_be64_round_trip(x);
}

pub proof fn lemma_dec_bytes(b: Seq<u8>, rest: Seq<u8>)
    requires
        b.len() <= u64::MAX,
    ensures
        dec_bytes(enc_bytes(b) + rest) == Some((b, rest)),
{
    let s = enc_bytes(b) + rest;
    assert(s =~= enc_u64(b.len() as u64) + (b + rest));
    lemma_dec_u64(b.len() as u64, b + rest);
    assert((b + rest).take(b.len() as int) =~= b);
    assert((b + rest).skip(b.len() as int) =~= rest);
}

// ---------------------------------------------------------------------------
// Executable encoders. Each appends its encoding to an output buffer.
// ---------------------------------------------------------------------------

pub fn put_u8(out: &mut Vec<u8>, x: u8)
    ensures
        final(out)@ == old(out)@ + enc_u8(x),
{
    out.push(x);
    assert(final(out)@ =~= old(out)@ + enc_u8(x));
}

pub fn put_u64(out: &mut Vec<u8>, x: u64)
    ensures
        final(out)@ == old(out)@ + enc_u64(x),
{
    out.push(((x >> 56) & 0xff) as u8);
    out.push(((x >> 48) & 0xff) as u8);
    out.push(((x >> 40) & 0xff) as u8);
    out.push(((x >> 32) & 0xff) as u8);
    out.push(((x >> 24) & 0xff) as u8);
    out.push(((x >> 16) & 0xff) as u8);
    out.push(((x >> 8) & 0xff) as u8);
    out.push((x & 0xff) as u8);
    assert(final(out)@ =~= old(out)@ + enc_u64(x));
}

pub fn put_bytes(out: &mut Vec<u8>, b: &Vec<u8>)
    ensures
        final(out)@ == old(out)@ + enc_bytes(b@),
{
    let n: usize = b.len();
    put_u64(out, n as u64);
    let ghost mid = out@;
    let mut k: usize = 0;
    while k < n
        invariant
            n == b@.len(),
            k <= n,
            out@ == mid + b@.take(k as int),
        decreases n - k,
    {
        out.push(b[k]);
        assert(out@ =~= mid + b@.take(k as int + 1));
        k += 1;
    }
    assert(b@.take(n as int) =~= b@);
    assert(final(out)@ =~= old(out)@ + enc_bytes(b@));
}

// ---------------------------------------------------------------------------
// Executable parsers. Each reads from `data` at offset `i` and returns the
// value with the offset just past it; the contract ties the step to the
// spec parser applied to the unconsumed suffix.
// ---------------------------------------------------------------------------

pub fn take_u8(data: &Vec<u8>, i: usize) -> (r: Option<(u8, usize)>)
    requires
        i <= data@.len(),
    ensures
        match r {
            Some((x, j)) => i < j <= data@.len() && dec_u8(data@.skip(i as int)) == Some(
                (x, data@.skip(j as int)),
            ),
            None => dec_u8(data@.skip(i as int)) is None,
        },
{
    if data.len() - i >= 1 {
        let x = data[i];
        assert(data@.skip(i as int)[0] == x);
        assert(data@.skip(i as int).skip(1) =~= data@.skip(i as int + 1));
        Some((x, i + 1))
    } else {
        None
    }
}

pub fn take_u64(data: &Vec<u8>, i: usize) -> (r: Option<(u64, usize)>)
    requires
        i <= data@.len(),
    ensures
        match r {
            Some((x, j)) => i < j <= data@.len() && dec_u64(data@.skip(i as int)) == Some(
                (x, data@.skip(j as int)),
            ),
            None => dec_u64(data@.skip(i as int)) is None,
        },
{
    if data.len() - i >= 8 {
        let x: u64 = (data[i] as u64) << 56 | (data[i + 1] as u64) << 48 | (data[i + 2] as u64)
            << 40 | (data[i + 3] as u64) << 32 | (data[i + 4] as u64) << 24 | (data[i + 5] as u64)
            << 16 | (data[i + 6] as u64) << 8 | (data[i + 7] as u64);
        proof {
            let t = data@.skip(i as int).take(8);
            assert(t[0] == data@[i as int]);
            assert(t[1] == data@[i as int + 1]);
            assert(t[2] == data@[i as int + 2]);
            assert(t[3] == data@[i as int + 3]);
            assert(t[4] == data@[i as int + 4]);
            assert(t[5] == data@[i as int + 5]);
            assert(t[6] == data@[i as int + 6]);
            assert(t[7] == data@[i as int + 7]);
            assert(data@.skip(i as int).skip(8) =~= data@.skip(i as int + 8));
        }
        Some((x, i + 8))
    } else {
        None
    }
}

/// Copies `data[start .. start + n]` into a fresh buffer.
pub fn copy_range(data: &Vec<u8>, start: usize, n: usize) -> (r: Vec<u8>)
    requires
        start + n <= data@.len(),
    ensures
        r@ == data@.subrange(start as int, start as int + n as int),
{
    let mut r: Vec<u8> = Vec::new();
    let dlen: usize = data.len();
    let mut k: usize = 0;
    while k < n
        invariant
            start + n <= dlen == data@.len(),
            k <= n,
            r@ == data@.subrange(start as int, start as int + k as int),
        decreases n - k,
    {
        r.push(data[start + k]);
        assert(r@ =~= data@.subrange(start as int, start as int + k as int + 1));
        k += 1;
    }
    r
}

/// Copies a whole buffer.
pub fn copy_bytes(data: &Vec<u8>) -> (r: Vec<u8>)
    ensures
        r@ == data@,
{
    let r = copy_range(data, 0, data.len());
    assert(data@.subrange(0, data@.len() as int) =~= data@);
    r
}

pub fn take_bytes(data: &Vec<u8>, i: usize) -> (r: Option<(Vec<u8>, usize)>)
    requires
        i <= data@.len(),
    ensures
        match r {
            Some((b, j)) => i < j <= data@.len() && dec_bytes(data@.skip(i as int)) == Some(
                (b@, data@.skip(j as int)),
            ),
            None => dec_bytes(data@.skip(i as int)) is None,
        },
{
    match take_u64(data, i) {
        None => None,
        Some((n, j)) => {
            if n <= (data.len() - j) as u64 {
                let n_us: usize = n as usize;
                let b = copy_range(data, j, n_us);
                proof {
                    let rem = data@.skip(j as int);
                    assert(rem.take(n as int) =~= data@.subrange(
                        j as int,
                        j as int + n as int,
                    ));
                    assert(rem.skip(n as int) =~= data@.skip(j as int + n as int));
                }
                Some((b, j + n_us))
            } else {
                assert(data@.skip(j as int).len() < n);
                None
            }
        },
    }
}

} // verus!
