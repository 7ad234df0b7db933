//! Bridging between bytes and field elements: packing message content into
//! field elements, turning 32-byte digests into 4 elements and back, and
//! truncating elements to their low 64 bits so that serialized digests
//! round-trip exactly.

use vstd::prelude::*;
use vstd::string::StringSliceAdditionalSpecFns;
use vstd::arithmetic::div_mod::{lemma_div_denominator, lemma_fundamental_div_mod};
use crate::zk::field::in_field;
use crate::zk::poseidon::{Felt4, all_in_field, ints_of, zk_hash_spec};

verus! {

/// `2^64`: the truncation bound of the byte bridge.
pub const LOW64_BOUND: u128 = 0x10000000000000000;

/// `256^n`.
pub open spec fn pow256(n: nat) -> int
    decreases n,
{
    if n == 0 {
        1
    } else {
        256 * pow256((n - 1) as nat)
    }
}

/// The little-endian value of a byte sequence.
pub open spec fn le_bytes_value(bytes: Seq<u8>) -> int
    decreases bytes.len(),
{
    if bytes.len() == 0 {
        0
    } else {
        bytes[0] + 256 * le_bytes_value(bytes.drop_first())
    }
}

/// The `k` little-endian bytes of a value.
pub open spec fn le_bytes_of(x: int, k: nat) -> Seq<u8> {
    Seq::new(k, |i: int| ((x / pow256(i as nat)) % 256) as u8)
}

proof fn lemma_pow256_pos(n: nat)
    ensures
        pow256(n) >= 1,
    decreases n,
{
    if n > 0 {
        lemma_pow256_pos((n - 1) as nat);
    }
}

proof fn lemma_pow256_mono(a: nat, b: nat)
    requires
        a <= b,
    ensures
        pow256(a) <= pow256(b),
    decreases b - a,
{
    if a < b {
        lemma_pow256_mono(a, (b - 1) as nat);
        lemma_pow256_pos((b - 1) as nat);
    }
}

proof fn lemma_pow256_values()
    ensures
        pow256(7) == 0x100000000000000,
        pow256(8) == 0x10000000000000000,
{
    reveal_with_fuel(pow256, 9);
}

/// A byte sequence's value is bounded by `256^len`.
pub proof fn lemma_le_bytes_value_bound(bytes: Seq<u8>)
    ensures
        0 <= le_bytes_value(bytes) < pow256(bytes.len()),
    decreases bytes.len(),
{
    if bytes.len() == 0 {
    } else {
        lemma_le_bytes_value_bound(bytes.drop_first());
    }
}

/// An all-zero byte sequence has value zero.
pub proof fn lemma_le_bytes_value_zero(bytes: Seq<u8>)
    requires
        forall|i: int| 0 <= i < bytes.len() ==> bytes[i] == 0,
    ensures
        le_bytes_value(bytes) == 0,
    decreases bytes.len(),
{
    if bytes.len() > 0 {
        lemma_le_bytes_value_zero(bytes.drop_first());
    }
}

/// Encoding a value in `k` bytes and reading it back gives the value, for
/// values that fit.
pub proof fn lemma_le_bytes_of_value(x: int, k: nat)
    requires
        0 <= x < pow256(k),
    ensures
        le_bytes_value(le_bytes_of(x, k)) == x,
    decreases k,
{
    let s = le_bytes_of(x, k);
    if k == 0 {
    } else {
        let q = x / 256;
        lemma_fundamental_div_mod(x, 256);
        assert(x == 256 * q + x % 256);
        assert(0 <= q) by {
            vstd::arithmetic::div_mod::lemma_div_pos_is_pos(x, 256);
        }
        assert(q < pow256((k - 1) as nat)) by {
            if q >= pow256((k - 1) as nat) {
                assert(x >= 256 * pow256((k - 1) as nat));
            }
        }
        lemma_le_bytes_of_value(q, (k - 1) as nat);
        assert(s.drop_first() =~= le_bytes_of(q, (k - 1) as nat)) by {
            assert forall|i: int| 0 <= i < k - 1 implies s.drop_first()[i] == le_bytes_of(
                q,
                (k - 1) as nat,
            )[i] by {
                lemma_pow256_pos(i as nat);
                lemma_div_denominator(x, 256, pow256(i as nat));
                assert(x / 256 / pow256(i as nat) == x / (256 * pow256(i as nat)));
                assert(pow256((i + 1) as nat) == 256 * pow256(i as nat));
            }
        }
        assert(s[0] == (x % 256) as u8) by {
            lemma_pow256_pos(0);
            assert(x / pow256(0) == x) by {
                assert(pow256(0) == 1);
                vstd::arithmetic::div_mod::lemma_div_basics_1(x);
            }
        }
        assert(le_bytes_value(s) == s[0] + 256 * le_bytes_value(s.drop_first()));
    }
}

/// Reading `k` bytes as a value and encoding the value again gives the same
/// bytes.
pub proof fn lemma_le_value_of_bytes(s: Seq<u8>)
    ensures
        le_bytes_of(le_bytes_value(s), s.len()) == s,
    decreases s.len(),
{
    let x = le_bytes_value(s);
    let k = s.len();
    if k == 0 {
        assert(le_bytes_of(x, 0) =~= s);
    } else {
        let rest = s.drop_first();
        let r = le_bytes_value(rest);
        lemma_le_bytes_value_bound(rest);
        assert(x == s[0] + 256 * r);
        lemma_fundamental_div_mod_converse_uses(x, s[0] as int, r);
        lemma_le_value_of_bytes(rest);
        assert(le_bytes_of(x, k) =~= s) by {
            assert forall|i: int| 0 <= i < k implies le_bytes_of(x, k)[i] == s[i] by {
                if i == 0 {
                    lemma_pow256_pos(0);
                    assert(pow256(0) == 1);
                    vstd::arithmetic::div_mod::lemma_div_basics_1(x);
                } else {
                    lemma_pow256_pos((i - 1) as nat);
                    lemma_div_denominator(x, 256, pow256((i - 1) as nat));
                    assert(pow256(i as nat) == 256 * pow256((i - 1) as nat));
                    assert(x / pow256(i as nat) == r / pow256((i - 1) as nat));
                    assert(le_bytes_of(r, (k - 1) as nat)[i - 1] == rest[i - 1]);
                }
            }
        }
    }
}

proof fn lemma_fundamental_div_mod_converse_uses(x: int, b: int, r: int)
    requires
        0 <= b < 256,
        0 <= r,
        x == b + 256 * r,
    ensures
        x % 256 == b,
        x / 256 == r,
{
    vstd::arithmetic::div_mod::lemma_fundamental_div_mod_converse(x, 256, r, b);
}

/// The subrange `[lo, hi)` of a byte sequence, clipped to its length.
pub open spec fn clipped_range(bytes: Seq<u8>, lo: int, hi: int) -> Seq<u8> {
    if lo >= bytes.len() {
        Seq::empty()
    } else if hi <= bytes.len() {
        bytes.subrange(lo, hi)
    } else {
        bytes.subrange(lo, bytes.len() as int)
    }
}

/// The value of the `k`-th 8-byte chunk of the content; absent bytes are zero.
pub open spec fn content_chunk_spec(bytes: Seq<u8>, k: int) -> int {
    le_bytes_value(clipped_range(bytes, 8 * k, 8 * k + 8))
}

/// Content packed into 4 field elements: four little-endian 8-byte chunks;
/// bytes past 32 are discarded.
pub open spec fn pack_content_spec(bytes: Seq<u8>) -> Seq<int> {
    seq![
        content_chunk_spec(bytes, 0),
        content_chunk_spec(bytes, 1),
        content_chunk_spec(bytes, 2),
        content_chunk_spec(bytes, 3),
    ]
}

/// The chunk from index `j` on; empty once `j` passes the end.
spec fn chunk_tail(chunk: Seq<u8>, j: int) -> Seq<u8> {
    if j < chunk.len() {
        chunk.skip(j)
    } else {
        Seq::empty()
    }
}

fn pack_chunk(bytes: &[u8], k: usize) -> (v: u64)
    requires
        k < 4,
    ensures
        v as int == content_chunk_spec(bytes@, k as int),
{
    let ghost chunk: Seq<u8> = clipped_range(bytes@, 8 * k as int, 8 * k as int + 8);
    let start: usize = 8 * k;
    let len = bytes.len();
    let mut v: u64 = 0;
    let mut j: usize = 8;
    while j > 0
        invariant
            k < 4,
            start == 8 * k,
            len == bytes@.len(),
            chunk == clipped_range(bytes@, 8 * k as int, 8 * k as int + 8),
            chunk.len() <= 8,
            j <= 8,
            v as int == le_bytes_value(chunk_tail(chunk, j as int)),
            (v as int) < pow256((8 - j) as nat),
        decreases j,
    {
        j = j - 1;
        let ghost tail_after = chunk_tail(chunk, j as int + 1);
        let b: u64 = if start + j < len {
            bytes[start + j] as u64
        } else {
            0
        };
        proof {
            lemma_pow256_values();
            lemma_pow256_mono((7 - j) as nat, 7);
            assert(pow256((8 - j) as nat) == 256 * pow256((7 - j) as nat));
            if j < chunk.len() {
                assert(chunk[j as int] == bytes@[start + j as int]);
                assert(b as int == chunk[j as int]);
                assert(chunk_tail(chunk, j as int).drop_first() =~= tail_after);
                assert(le_bytes_value(chunk_tail(chunk, j as int)) == chunk[j as int] + 256
                    * le_bytes_value(tail_after));
            } else {
                assert(b == 0);
                assert(chunk_tail(chunk, j as int) =~= Seq::<u8>::empty());
                assert(tail_after =~= Seq::<u8>::empty());
            }
        }
        v = v * 256 + b;
    }
    proof {
        if chunk.len() > 0 {
            assert(chunk_tail(chunk, 0) =~= chunk);
        } else {
            assert(chunk_tail(chunk, 0) =~= chunk);
        }
    }
    v
}

/// Packs the content's UTF-8 bytes into exactly 4 field elements
/// (8 bytes per element, little-endian); bytes past 32 are discarded.
pub fn pack_content(content: &str) -> (r: Felt4)
    ensures
        r.wf(),
        r@ == pack_content_spec(content.spec_bytes()),
{
    let bytes: &[u8] = content.as_bytes();
    let c0 = pack_chunk(bytes, 0);
    let c1 = pack_chunk(bytes, 1);
    let c2 = pack_chunk(bytes, 2);
    let c3 = pack_chunk(bytes, 3);
    let r = Felt4 { e0: c0 as u128, e1: c1 as u128, e2: c2 as u128, e3: c3 as u128 };
    proof {
        assert(r@ =~= pack_content_spec(content.spec_bytes()));
    }
    r
}

/// The low 64 bits of a field element's canonical value.
pub open spec fn truncate64(x: int) -> int {
    x % (LOW64_BOUND as int)
}

/// A 32-byte digest read as 4 field elements: little-endian 8-byte chunks.
pub open spec fn h2e_spec(bytes: Seq<u8>) -> Seq<int> {
    seq![
        le_bytes_value(bytes.subrange(0, 8)),
        le_bytes_value(bytes.subrange(8, 16)),
        le_bytes_value(bytes.subrange(16, 24)),
        le_bytes_value(bytes.subrange(24, 32)),
    ]
}

/// 4 field elements rendered as a 32-byte digest: each element's low 64 bits,
/// little-endian.
pub open spec fn e2h_spec(e: Seq<int>) -> Seq<u8> {
    le_bytes_of(truncate64(e[0]), 8) + le_bytes_of(truncate64(e[1]), 8) + le_bytes_of(
        truncate64(e[2]),
        8,
    ) + le_bytes_of(truncate64(e[3]), 8)
}

/// Converts a 32-byte hash into 4 field elements (little-endian u64 chunks).
pub fn hash_to_elements(hash: &Vec<u8>) -> (r: Felt4)
    requires
        hash@.len() == 32,
    ensures
        r.wf(),
        r@ == h2e_spec(hash@),
        forall|i: int| 0 <= i < 4 ==> #[trigger] r@[i] < LOW64_BOUND as int,
{
    let s = hash.as_slice();
    let e0 = pack_chunk(s, 0);
    let e1 = pack_chunk(s, 1);
    let e2 = pack_chunk(s, 2);
    let e3 = pack_chunk(s, 3);
    let r = Felt4 { e0: e0 as u128, e1: e1 as u128, e2: e2 as u128, e3: e3 as u128 };
    proof {
        assert(clipped_range(hash@, 0, 8) =~= hash@.subrange(0, 8));
        assert(clipped_range(hash@, 8, 16) =~= hash@.subrange(8, 16));
        assert(clipped_range(hash@, 16, 24) =~= hash@.subrange(16, 24));
        assert(clipped_range(hash@, 24, 32) =~= hash@.subrange(24, 32));
        assert(r@ =~= h2e_spec(hash@));
    }
    r
}

/// Converts a 32-byte hash into 4 field elements; the named twin of
/// `hash_to_elements` kept for the hashing side of the API.
pub fn hash_bytes_to_elements(hash: &Vec<u8>) -> (r: Felt4)
    requires
        hash@.len() == 32,
    ensures
        r.wf(),
        r@ == h2e_spec(hash@),
{
    hash_to_elements(hash)
}

fn push_le64(out: &mut Vec<u8>, v: u64)
    ensures
        final(out)@ == old(out)@ + le_bytes_of(v as int, 8),
{
    let ghost enc = le_bytes_of(v as int, 8);
    let ghost base = out@;
    let mut t: u64 = v;
    let mut j: usize = 0;
    proof {
        lemma_pow256_pos(0);
        assert(pow256(0) == 1);
        vstd::arithmetic::div_mod::lemma_div_basics_1(v as int);
        assert(out@ =~= base + enc.take(0));
    }
    while j < 8
        invariant
            j <= 8,
            enc == le_bytes_of(v as int, 8),
            t as int == (v as int) / pow256(j as nat),
            out@ == base + enc.take(j as int),
        decreases 8 - j,
    {
        let b: u8 = (t % 256) as u8;
        out.push(b);
        proof {
            assert(enc[j as int] == ((v as int / pow256(j as nat)) % 256) as u8);
            assert(b == enc[j as int]);
            assert(out@ =~= base + enc.take(j as int + 1));
            lemma_pow256_pos(j as nat);
            lemma_div_denominator(v as int, pow256(j as nat), 256);
            assert(pow256((j + 1) as nat) == 256 * pow256(j as nat)) by {
                assert(pow256((j + 1) as nat) == 256 * pow256(((j + 1) - 1) as nat));
            }
            assert((v as int) / pow256(j as nat) / 256 == (v as int) / pow256((j + 1) as nat)) by {
                assert((v as int) / pow256(j as nat) / 256 == (v as int) / (pow256(j as nat)
                    * 256));
                assert(pow256(j as nat) * 256 == 256 * pow256(j as nat));
            }
        }
        t = t / 256;
        j = j + 1;
    }
    proof {
        assert(enc.take(8) =~= enc);
    }
}

/// Converts 4 field elements back to a 32-byte hash, keeping each element's
/// low 64 bits.
pub fn elements_to_hash(e: &Felt4) -> (r: Vec<u8>)
    ensures
        r@.len() == 32,
        r@ == e2h_spec(e@),
{
    let t0 = (e.e0 % LOW64_BOUND) as u64;
    let t1 = (e.e1 % LOW64_BOUND) as u64;
    let t2 = (e.e2 % LOW64_BOUND) as u64;
    let t3 = (e.e3 % LOW64_BOUND) as u64;
    let mut r: Vec<u8> = Vec::new();
    push_le64(&mut r, t0);
    push_le64(&mut r, t1);
    push_le64(&mut r, t2);
    push_le64(&mut r, t3);
    proof {
        assert(r@ =~= e2h_spec(e@));
    }
    r
}

/// Truncates a field element to its low 64 bits, matching the
/// `elements_to_hash` encoding.
pub fn truncate_element(e: u128) -> (r: u128)
    ensures
        r as int == truncate64(e as int),
        r < LOW64_BOUND,
        in_field(r),
{
    e % LOW64_BOUND
}

/// Truncation applied to each lane of `e`.
pub open spec fn truncate_spec(e: Seq<int>) -> Seq<int> {
    seq![truncate64(e[0]), truncate64(e[1]), truncate64(e[2]), truncate64(e[3])]
}

/// Applies the low-64-bit truncation to all 4 elements.
pub fn truncate_elements(arr: &Felt4) -> (r: Felt4)
    ensures
        r.wf(),
        r@ == truncate_spec(arr@),
{
    let r = Felt4 {
        e0: truncate_element(arr.e0),
        e1: truncate_element(arr.e1),
        e2: truncate_element(arr.e2),
        e3: truncate_element(arr.e3),
    };
    proof {
        assert(r@ =~= truncate_spec(arr@));
    }
    r
}

/// The 7 hash inputs of a message: id, sender, timestamp, then the 4 packed
/// content elements.
pub open spec fn message_inputs_spec(
    id: u64,
    sender: u64,
    timestamp: u64,
    content_bytes: Seq<u8>,
) -> Seq<int> {
    seq![id as int, sender as int, timestamp as int] + pack_content_spec(content_bytes)
}

/// The per-message hash: the sponge over the 7 message inputs, rendered as
/// 32 bytes.
pub open spec fn message_hash_spec(
    id: u64,
    sender: u64,
    timestamp: u64,
    content_bytes: Seq<u8>,
) -> Seq<u8> {
    e2h_spec(zk_hash_spec(message_inputs_spec(id, sender, timestamp, content_bytes)))
}

/// Builds the per-message hash inputs from the message fields.
pub fn message_hash_inputs(id: u64, sender: u64, timestamp: u64, content: &str) -> (r: Vec<u128>)
    ensures
        r@.len() == 7,
        all_in_field(r@),
        ints_of(r@) == message_inputs_spec(id, sender, timestamp, content.spec_bytes()),
{
    let packed = pack_content(content);
    let mut r: Vec<u128> = Vec::new();
    r.push(id as u128);
    r.push(sender as u128);
    r.push(timestamp as u128);
    r.push(packed.e0);
    r.push(packed.e1);
    r.push(packed.e2);
    r.push(packed.e3);
    proof {
        assert(ints_of(r@) =~= message_inputs_spec(id, sender, timestamp, content.spec_bytes()));
    }
    r
}

/// Byte digests survive the element bridge: reading 32 bytes as elements and
/// rendering them back gives the same 32 bytes.
pub proof fn lemma_bytes_element_roundtrip(bytes: Seq<u8>)
    requires
        bytes.len() == 32,
    ensures
        e2h_spec(h2e_spec(bytes)) == bytes,
{
    lemma_pow256_values();
    let e = h2e_spec(bytes);
    let c0 = bytes.subrange(0, 8);
    let c1 = bytes.subrange(8, 16);
    let c2 = bytes.subrange(16, 24);
    let c3 = bytes.subrange(24, 32);
    lemma_le_bytes_value_bound(c0);
    lemma_le_bytes_value_bound(c1);
    lemma_le_bytes_value_bound(c2);
    lemma_le_bytes_value_bound(c3);
    assert(truncate64(e[0]) == e[0]);
    assert(truncate64(e[1]) == e[1]);
    assert(truncate64(e[2]) == e[2]);
    assert(truncate64(e[3]) == e[3]);
    lemma_le_value_of_bytes(c0);
    lemma_le_value_of_bytes(c1);
    lemma_le_value_of_bytes(c2);
    lemma_le_value_of_bytes(c3);
    assert(e2h_spec(h2e_spec(bytes)) =~= bytes);
}

/// The element bridge in the other direction: rendering 4 elements as bytes
/// and reading them back yields each element's low 64 bits.
pub proof fn lemma_element_bytes_roundtrip(e: Seq<int>)
    requires
        e.len() == 4,
    ensures
        h2e_spec(e2h_spec(e)) == truncate_spec(e),
{
    lemma_pow256_values();
    let b = e2h_spec(e);
    assert(b.subrange(0, 8) =~= le_bytes_of(truncate64(e[0]), 8));
    assert(b.subrange(8, 16) =~= le_bytes_of(truncate64(e[1]), 8));
    assert(b.subrange(16, 24) =~= le_bytes_of(truncate64(e[2]), 8));
    assert(b.subrange(24, 32) =~= le_bytes_of(truncate64(e[3]), 8));
    lemma_le_bytes_of_value(truncate64(e[0]), 8);
    lemma_le_bytes_of_value(truncate64(e[1]), 8);
    lemma_le_bytes_of_value(truncate64(e[2]), 8);
    lemma_le_bytes_of_value(truncate64(e[3]), 8);
    assert(h2e_spec(e2h_spec(e)) =~= truncate_spec(e));
}

/// Reading the all-zero digest gives the all-zero elements.
pub proof fn lemma_h2e_zero()
    ensures
        h2e_spec(crate::zk::zero_hash()) == seq![0int, 0int, 0int, 0int],
{
    let z = crate::zk::zero_hash();
    lemma_le_bytes_value_zero(z.subrange(0, 8));
    lemma_le_bytes_value_zero(z.subrange(8, 16));
    lemma_le_bytes_value_zero(z.subrange(16, 24));
    lemma_le_bytes_value_zero(z.subrange(24, 32));
    assert(h2e_spec(z) =~= seq![0int, 0int, 0int, 0int]);
}

} // verus!
