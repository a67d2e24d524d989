//! SHA-256 (FIPS 180-4), specified over byte sequences and implemented with a
//! proof that the implementation computes exactly that specification.

use vstd::prelude::*;

verus! {

/// The SHA-256 round constants.
pub const K: [u32; 64] = [
    0x428a2f98, 0x71374491, 0xb5c0fbcf, 0xe9b5dba5, 0x3956c25b, 0x59f111f1, 0x923f82a4, 0xab1c5ed5,
    0xd807aa98, 0x12835b01, 0x243185be, 0x550c7dc3, 0x72be5d74, 0x80deb1fe, 0x9bdc06a7, 0xc19bf174,
    0xe49b69c1, 0xefbe4786, 0x0fc19dc6, 0x240ca1cc, 0x2de92c6f, 0x4a7484aa, 0x5cb0a9dc, 0x76f988da,
    0x983e5152, 0xa831c66d, 0xb00327c8, 0xbf597fc7, 0xc6e00bf3, 0xd5a79147, 0x06ca6351, 0x14292967,
    0x27b70a85, 0x2e1b2138, 0x4d2c6dfc, 0x53380d13, 0x650a7354, 0x766a0abb, 0x81c2c92e, 0x92722c85,
    0xa2bfe8a1, 0xa81a664b, 0xc24b8b70, 0xc76c51a3, 0xd192e819, 0xd6990624, 0xf40e3585, 0x106aa070,
    0x19a4c116, 0x1e376c08, 0x2748774c, 0x34b0bcb5, 0x391c0cb3, 0x4ed8aa4a, 0x5b9cca4f, 0x682e6ff3,
    0x748f82ee, 0x78a5636f, 0x84c87814, 0x8cc70208, 0x90befffa, 0xa4506ceb, 0xbef9a3f7, 0xc67178f2,
];

/// The eight working words of SHA-256.
#[derive(Clone, Copy, Debug, PartialEq, Eq, Structural)]
pub struct Sha256State {
    pub a: u32,
    pub b: u32,
    pub c: u32,
    pub d: u32,
    pub e: u32,
    pub f: u32,
    pub g: u32,
    pub h: u32,
}

/// The initial hash value H(0).
pub open spec fn initial_state() -> Sha256State {
    Sha256State {
        a: 0x6a09e667,
        b: 0xbb67ae85,
        c: 0x3c6ef372,
        d: 0xa54ff53a,
        e: 0x510e527f,
        f: 0x9b05688c,
        g: 0x1f83d9ab,
        h: 0x5be0cd19,
    }
}

/// Addition modulo 2^32.
pub open spec fn add32(x: u32, y: u32) -> u32 {
    ((x + y) % 0x1_0000_0000) as u32
}

/// Rotation right by `n` bits, `0 < n < 32`.
pub open spec fn rotr(x: u32, n: u32) -> u32 {
    (x >> n) | (x << ((32 - n) as u32))
}

pub open spec fn ch(x: u32, y: u32, z: u32) -> u32 {
    (x & y) ^ (!x & z)
}

pub open spec fn maj(x: u32, y: u32, z: u32) -> u32 {
    (x & y) ^ (x & z) ^ (y & z)
}

pub open spec fn big_sigma0(x: u32) -> u32 {
    rotr(x, 2) ^ rotr(x, 13) ^ rotr(x, 22)
}

pub open spec fn big_sigma1(x: u32) -> u32 {
    rotr(x, 6) ^ rotr(x, 11) ^ rotr(x, 25)
}

pub open spec fn small_sigma0(x: u32) -> u32 {
    rotr(x, 7) ^ rotr(x, 18) ^ (x >> 3)
}

pub open spec fn small_sigma1(x: u32) -> u32 {
    rotr(x, 17) ^ rotr(x, 19) ^ (x >> 10)
}

/// The big-endian word of four bytes.
pub open spec fn be_word(b0: u8, b1: u8, b2: u8, b3: u8) -> u32 {
    ((b0 as u32) << 24u32) | ((b1 as u32) << 16u32) | ((b2 as u32) << 8u32) | (b3 as u32)
}

/// Word `t` (`t < 16`) of a 64-byte block.
pub open spec fn block_word(block: Seq<u8>, t: int) -> u32 {
    be_word(block[4 * t], block[4 * t + 1], block[4 * t + 2], block[4 * t + 3])
}

/// Word `t` of the message schedule of a block.
pub open spec fn schedule(block: Seq<u8>, t: nat) -> u32
    decreases t,
{
    if t < 16 {
        block_word(block, t as int)
    } else {
        add32(
            add32(
                add32(
                    small_sigma1(schedule(block, (t - 2) as nat)),
                    schedule(block, (t - 7) as nat),
                ),
                small_sigma0(schedule(block, (t - 15) as nat)),
            ),
            schedule(block, (t - 16) as nat),
        )
    }
}

/// One round of the compression function, with round constant `k` and
/// schedule word `w`.
pub open spec fn round(s: Sha256State, k: u32, w: u32) -> Sha256State {
    let t1 = add32(add32(add32(add32(s.h, big_sigma1(s.e)), ch(s.e, s.f, s.g)), k), w);
    let t2 = add32(big_sigma0(s.a), maj(s.a, s.b, s.c));
    Sha256State {
        a: add32(t1, t2),
        b: s.a,
        c: s.b,
        d: s.c,
        e: add32(s.d, t1),
        f: s.e,
        g: s.f,
        h: s.g,
    }
}

/// The working state after the first `t` rounds on `block`.
pub open spec fn rounds(s: Sha256State, block: Seq<u8>, t: nat) -> Sha256State
    decreases t,
{
    if t == 0 {
        s
    } else {
        round(rounds(s, block, (t - 1) as nat), K@[t - 1], schedule(block, (t - 1) as nat))
    }
}

/// The compression function: the intermediate hash value after `block`.
#[verifier::opaque]
pub open spec fn compress(s: Sha256State, block: Seq<u8>) -> Sha256State {
    let r = rounds(s, block, 64);
    Sha256State {
        a: add32(s.a, r.a),
        b: add32(s.b, r.b),
        c: add32(s.c, r.c),
        d: add32(s.d, r.d),
        e: add32(s.e, r.e),
        f: add32(s.f, r.f),
        g: add32(s.g, r.g),
        h: add32(s.h, r.h),
    }
}

/// The number of zero bytes between the `0x80` byte and the length field.
pub open spec fn zero_pad_len(n: nat) -> nat {
    if n % 64 <= 55 {
        (55 - n % 64) as nat
    } else {
        (119 - n % 64) as nat
    }
}

/// The big-endian bytes of a 64-bit word.
pub open spec fn be64_bytes(x: u64) -> Seq<u8> {
    seq![
        (x >> 56u64) as u8,
        (x >> 48u64) as u8,
        (x >> 40u64) as u8,
        (x >> 32u64) as u8,
        (x >> 24u64) as u8,
        (x >> 16u64) as u8,
        (x >> 8u64) as u8,
        x as u8,
    ]
}

/// The message length in bits, modulo 2^64.
pub open spec fn bit_length(n: nat) -> u64 {
    ((n * 8) % 0x1_0000_0000_0000_0000) as u64
}

/// The padded message: the message, a `0x80` byte, zeros up to 56 bytes
/// modulo 64, and the bit length as a big-endian 64-bit word.
pub open spec fn padded(msg: Seq<u8>) -> Seq<u8> {
    msg + seq![0x80u8] + Seq::new(zero_pad_len(msg.len()), |i: int| 0u8) + be64_bytes(
        bit_length(msg.len()),
    )
}

/// The intermediate hash value after the first `n` blocks of `m`.
pub open spec fn hash_blocks(s: Sha256State, m: Seq<u8>, n: nat) -> Sha256State
    decreases n,
{
    if n == 0 {
        s
    } else {
        compress(hash_blocks(s, m, (n - 1) as nat), m.subrange(64 * (n - 1), 64 * (n as int)))
    }
}

/// The big-endian bytes of a 32-bit word.
pub open spec fn be32_bytes(x: u32) -> Seq<u8> {
    seq![(x >> 24u32) as u8, (x >> 16u32) as u8, (x >> 8u32) as u8, x as u8]
}

/// The digest bytes of a hash value.
pub open spec fn state_bytes(s: Sha256State) -> Seq<u8> {
    be32_bytes(s.a) + be32_bytes(s.b) + be32_bytes(s.c) + be32_bytes(s.d) + be32_bytes(s.e)
        + be32_bytes(s.f) + be32_bytes(s.g) + be32_bytes(s.h)
}

/// The SHA-256 digest of `data` (FIPS 180-4): the padded message compressed
/// block by block from the initial hash value.
pub open spec fn sha256(data: Seq<u8>) -> Seq<u8> {
    let m = padded(data);
    state_bytes(hash_blocks(initial_state(), m, m.len() / 64))
}

fn add32_exec(x: u32, y: u32) -> (r: u32)
    ensures
        r == add32(x, y),
{
    x.wrapping_add(y)
}

fn round_exec(s: Sha256State, k: u32, w: u32) -> (r: Sha256State)
    ensures
        r == round(s, k, w),
{
    let s1 = ((s.e >> 6u32) | (s.e << 26u32)) ^ ((s.e >> 11u32) | (s.e << 21u32)) ^ ((s.e >> 25u32)
        | (s.e << 7u32));
    let chv = (s.e & s.f) ^ (!s.e & s.g);
    let t1 = add32_exec(add32_exec(add32_exec(add32_exec(s.h, s1), chv), k), w);
    let s0 = ((s.a >> 2u32) | (s.a << 30u32)) ^ ((s.a >> 13u32) | (s.a << 19u32)) ^ ((s.a >> 22u32)
        | (s.a << 10u32));
    let majv = (s.a & s.b) ^ (s.a & s.c) ^ (s.b & s.c);
    let t2 = add32_exec(s0, majv);
    assert(s1 == big_sigma1(s.e));
    assert(s0 == big_sigma0(s.a));
    Sha256State {
        a: add32_exec(t1, t2),
        b: s.a,
        c: s.b,
        d: s.c,
        e: add32_exec(s.d, t1),
        f: s.e,
        g: s.f,
        h: s.g,
    }
}

fn schedule_exec(bytes: &[u8], offset: usize) -> (w: Vec<u32>)
    requires
        offset + 64 <= bytes@.len(),
    ensures
        w@.len() == 64,
        forall|t: int|
            0 <= t < 64 ==> #[trigger] w@[t] == schedule(
                bytes@.subrange(offset as int, offset + 64),
                t as nat,
            ),
{
    let ghost block = bytes@.subrange(offset as int, offset + 64);
    let len = bytes.len();
    let mut w: Vec<u32> = Vec::new();
    let mut t: usize = 0;
    while t < 64
        invariant
            offset + 64 <= bytes@.len(),
            len == bytes@.len(),
            block == bytes@.subrange(offset as int, offset + 64),
            t <= 64,
            w@.len() == t,
            forall|i: int| 0 <= i < t ==> #[trigger] w@[i] == schedule(block, i as nat),
        decreases 64 - t,
    {
        let v: u32;
        if t < 16 {
            let base = offset + 4 * t;
            let b0 = bytes[base];
            let b1 = bytes[base + 1];
            let b2 = bytes[base + 2];
            let b3 = bytes[base + 3];
            v = ((b0 as u32) << 24u32) | ((b1 as u32) << 16u32) | ((b2 as u32) << 8u32) | (b3 as u32);
            assert(block[4 * t] == b0);
            assert(block[4 * t + 1] == b1);
            assert(block[4 * t + 2] == b2);
            assert(block[4 * t + 3] == b3);
        } else {
            let x2 = w[t - 2];
            let x15 = w[t - 15];
            let ss1 = ((x2 >> 17u32) | (x2 << 15u32)) ^ ((x2 >> 19u32) | (x2 << 13u32)) ^ (x2
                >> 10u32);
            let ss0 = ((x15 >> 7u32) | (x15 << 25u32)) ^ ((x15 >> 18u32) | (x15 << 14u32)) ^ (x15
                >> 3u32);
            assert(ss1 == small_sigma1(x2));
            assert(ss0 == small_sigma0(x15));
            v = add32_exec(add32_exec(add32_exec(ss1, w[t - 7]), ss0), w[t - 16]);
        }
        assert(v == schedule(block, t as nat));
        w.push(v);
        t = t + 1;
    }
    w
}

fn compress_exec(s: Sha256State, bytes: &[u8], offset: usize) -> (r: Sha256State)
    requires
        offset + 64 <= bytes@.len(),
    ensures
        r == compress(s, bytes@.subrange(offset as int, offset + 64)),
{
    let ghost block = bytes@.subrange(offset as int, offset + 64);
    proof {
        reveal(compress);
    }
    let w = schedule_exec(bytes, offset);
    let mut st = s;
    let mut t: usize = 0;
    while t < 64
        invariant
            t <= 64,
            w@.len() == 64,
            forall|i: int| 0 <= i < 64 ==> #[trigger] w@[i] == schedule(block, i as nat),
            st == rounds(s, block, t as nat),
        decreases 64 - t,
    {
        st = round_exec(st, K[t], w[t]);
        t = t + 1;
    }
    Sha256State {
        a: add32_exec(s.a, st.a),
        b: add32_exec(s.b, st.b),
        c: add32_exec(s.c, st.c),
        d: add32_exec(s.d, st.d),
        e: add32_exec(s.e, st.e),
        f: add32_exec(s.f, st.f),
        g: add32_exec(s.g, st.g),
        h: add32_exec(s.h, st.h),
    }
}


fn state_bytes_exec(s: Sha256State) -> (out: [u8; 32])
    ensures
        out@ == state_bytes(s),
{
    let out: [u8; 32] = [
        (s.a >> 24u32) as u8,
        (s.a >> 16u32) as u8,
        (s.a >> 8u32) as u8,
        s.a as u8,
        (s.b >> 24u32) as u8,
        (s.b >> 16u32) as u8,
        (s.b >> 8u32) as u8,
        s.b as u8,
        (s.c >> 24u32) as u8,
        (s.c >> 16u32) as u8,
        (s.c >> 8u32) as u8,
        s.c as u8,
        (s.d >> 24u32) as u8,
        (s.d >> 16u32) as u8,
        (s.d >> 8u32) as u8,
        s.d as u8,
        (s.e >> 24u32) as u8,
        (s.e >> 16u32) as u8,
        (s.e >> 8u32) as u8,
        s.e as u8,
        (s.f >> 24u32) as u8,
        (s.f >> 16u32) as u8,
        (s.f >> 8u32) as u8,
        s.f as u8,
        (s.g >> 24u32) as u8,
        (s.g >> 16u32) as u8,
        (s.g >> 8u32) as u8,
        s.g as u8,
        (s.h >> 24u32) as u8,
        (s.h >> 16u32) as u8,
        (s.h >> 8u32) as u8,
        s.h as u8,
    ];
    assert(out@ =~= state_bytes(s));
    out
}

/// The padded message splits into the message and the padding after it.
pub proof fn lemma_padded_shape(msg: Seq<u8>)
    ensures
        padded(msg).len() == msg.len() + 1 + zero_pad_len(msg.len()) + 8,
        padded(msg).len() % 64 == 0,
        padded(msg).subrange(0, msg.len() as int) == msg,
{
    let m = padded(msg);
    assert(m.subrange(0, msg.len() as int) =~= msg);
}

/// The blocks after the last whole block of the message, with the padding.
fn padding_tail(data: &[u8], start: usize) -> (tail: Vec<u8>)
    requires
        start == 64 * (data@.len() / 64),
    ensures
        tail@ == padded(data@).subrange(start as int, padded(data@).len() as int),
        tail@.len() == 64 || tail@.len() == 128,
{
    let len = data.len();
    let mut tail: Vec<u8> = Vec::new();
    let mut k: usize = start;
    while k < len
        invariant
            len == data@.len(),
            start <= k <= len,
            tail@ == data@.subrange(start as int, k as int),
        decreases len - k,
    {
        tail.push(data[k]);
        k = k + 1;
        assert(tail@ =~= data@.subrange(start as int, k as int));
    }
    tail.push(0x80u8);
    let r = len - start;
    assert(r == len % 64);
    let zeros: usize = if r <= 55 {
        55 - r
    } else {
        119 - r
    };
    let mut z: usize = 0;
    while z < zeros
        invariant
            len == data@.len(),
            z <= zeros,
            tail@ == data@.subrange(start as int, len as int) + seq![0x80u8] + Seq::new(
                z as nat,
                |i: int| 0u8,
            ),
        decreases zeros - z,
    {
        tail.push(0u8);
        z = z + 1;
        assert(tail@ =~= data@.subrange(start as int, len as int) + seq![0x80u8] + Seq::new(
            z as nat,
            |i: int| 0u8,
        ));
    }
    let bits = (len as u64).wrapping_mul(8);
    assert(bits == bit_length(len as nat));
    tail.push((bits >> 56u64) as u8);
    tail.push((bits >> 48u64) as u8);
    tail.push((bits >> 40u64) as u8);
    tail.push((bits >> 32u64) as u8);
    tail.push((bits >> 24u64) as u8);
    tail.push((bits >> 16u64) as u8);
    tail.push((bits >> 8u64) as u8);
    tail.push(bits as u8);
    proof {
        let m = padded(data@);
        lemma_padded_shape(data@);
        assert(tail@ =~= data@.subrange(start as int, len as int) + seq![0x80u8] + Seq::new(
            zero_pad_len(len as nat),
            |i: int| 0u8,
        ) + be64_bytes(bits));
        assert(tail@ =~= m.subrange(start as int, m.len() as int));
    }
    tail
}

/// The SHA-256 digest of `data`.
pub fn sha256_digest(data: &[u8]) -> (digest: [u8; 32])
    ensures
        digest@ == sha256(data@),
{
    let len = data.len();
    let q = len / 64;
    let ghost m = padded(data@);
    proof {
        lemma_padded_shape(data@);
    }
    let mut st = Sha256State {
        a: 0x6a09e667,
        b: 0xbb67ae85,
        c: 0x3c6ef372,
        d: 0xa54ff53a,
        e: 0x510e527f,
        f: 0x9b05688c,
        g: 0x1f83d9ab,
        h: 0x5be0cd19,
    };
    let mut i: usize = 0;
    while i < q
        invariant
            len == data@.len(),
            q == len / 64,
            i <= q,
            m == padded(data@),
            m.subrange(0, len as int) == data@,
            st == hash_blocks(initial_state(), m, i as nat),
        decreases q - i,
    {
        let offset = 64 * i;
        proof {
            assert(m.subrange(offset as int, offset + 64) =~= data@.subrange(
                offset as int,
                offset + 64,
            )) by {
                assert forall|j: int| 0 <= j < 64 implies #[trigger] m[offset + j] == data@[offset
                    + j] by {
                    assert(m.subrange(0, len as int)[offset + j] == m[offset + j]);
                }
            }
        }
        st = compress_exec(st, data, offset);
        i = i + 1;
    }
    let tail = padding_tail(data, 64 * q);
    let tn = tail.len() / 64;
    let mut j: usize = 0;
    while j < tn
        invariant
            tail@ == m.subrange(64 * q, m.len() as int),
            tail@.len() == 64 || tail@.len() == 128,
            tn == tail@.len() / 64,
            m.len() == 64 * q + tail@.len(),
            j <= tn,
            st == hash_blocks(initial_state(), m, (q + j) as nat),
        decreases tn - j,
    {
        let offset = 64 * j;
        proof {
            assert(m.subrange(64 * (q + j), 64 * (q + j) + 64) =~= tail@.subrange(
                offset as int,
                offset + 64,
            ));
        }
        let ghost prev = st;
        st = compress_exec(st, tail.as_slice(), offset);
        proof {
            assert(hash_blocks(initial_state(), m, (q + j + 1) as nat) == compress(
                prev,
                m.subrange(64 * (q + j), 64 * (q + j) + 64),
            ));
        }
        j = j + 1;
    }
    assert(m.len() / 64 == q + tn);
    state_bytes_exec(st)
}

/// Padding keeps every byte of the message: the padded message starts with
/// the whole message, byte for byte, followed by `0x80`, and ends with the
/// message's bit length; its length is a whole number of 64-byte blocks, all
/// of which the digest compresses.
pub proof fn padding_keeps_every_byte(data: Seq<u8>)
    ensures
        padded(data).len() % 64 == 0,
        data.len() + 9 <= padded(data).len() <= data.len() + 72,
        forall|i: int| 0 <= i < data.len() ==> #[trigger] padded(data)[i] == data[i],
        padded(data)[data.len() as int] == 0x80u8,
        padded(data).subrange(padded(data).len() - 8, padded(data).len() as int) == be64_bytes(
            bit_length(data.len()),
        ),
{
    lemma_padded_shape(data);
    let m = padded(data);
    assert forall|i: int| 0 <= i < data.len() implies #[trigger] m[i] == data[i] by {
        assert(m.subrange(0, data.len() as int)[i] == m[i]);
    }
    assert(m.subrange(m.len() - 8, m.len() as int) =~= be64_bytes(bit_length(data.len())));
}

} // verus!
