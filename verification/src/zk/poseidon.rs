//! The ZK-friendly permutation and sponge: a 4-lane, 60-round Poseidon-style
//! permutation (6 full rounds, 48 partial rounds, 6 full rounds) and a
//! rate-3 / capacity-1 sponge built on it.

use vstd::prelude::*;
use crate::zk::field::{in_field, f_add, f_mul, f_cube, fe_add, fe_mul};

verus! {

/// Four field elements: the permutation state, a digest, or packed content.
#[derive(Clone, Copy, Debug, PartialEq, Eq, Structural)]
pub struct Felt4 {
    pub e0: u128,
    pub e1: u128,
    pub e2: u128,
    pub e3: u128,
}

impl View for Felt4 {
    type V = Seq<int>;

    open spec fn view(&self) -> Seq<int> {
        seq![self.e0 as int, self.e1 as int, self.e2 as int, self.e3 as int]
    }
}

impl Felt4 {
    /// All four lanes are canonical field elements.
    pub open spec fn wf(self) -> bool {
        in_field(self.e0) && in_field(self.e1) && in_field(self.e2) && in_field(self.e3)
    }

    pub fn zero() -> (r: Felt4)
        ensures
            r.wf(),
            r@ == zero_state(),
    {
        let r = Felt4 { e0: 0, e1: 0, e2: 0, e3: 0 };
        proof {
            assert(r@ =~= zero_state());
        }
        r
    }
}

/// The fixed cycle of round constants: 20 rows of 4 lanes; round `r` uses
/// row `r % 20`.
#[verifier::opaque]
pub open spec fn round_constant_table() -> Seq<Seq<u64>> {
    seq![
        seq![0x6861759ea556a233u64, 0x4ef8de4df501ae40u64, 0x296d6b8ca6ce42c1u64, 0x2ef38af5a47bd0f4u64],
        seq![0x101071f0032379b6u64, 0x6625a4a3d5b4a4b6u64, 0x2d5b2e8f5a4c8b6au64, 0x4a8f2d6b9e3c7f1au64],
        seq![0x3b7f8e2a9d6c4f1eu64, 0x7e4a1f8d5c2b9a6eu64, 0x9c6e3f7a1d4c9e6bu64, 0x1d4c9e6b2f8a5d1cu64],
        seq![0x5c2b9a6e3f1d7c4bu64, 0x8a5d1c7e4a1f8d5cu64, 0x6b2f8a5d1c7e4a1fu64, 0x3d7e6f2c1b4a8d5eu64],
        seq![0xf1d7c4b6a8e2f1c5u64, 0x1c7e4a1f8d5c2b9au64, 0xc1b4a8d5e9c6b2f8u64, 0x6a8e2f1c5b9a3d7eu64],
        seq![0xf8d5c2b9a6e3f1d7u64, 0x5e9c6b2f8a5d1c7eu64, 0xc5b9a3d7e6f2c1b4u64, 0x9a6e3f1d7c4b6a8eu64],
        seq![0xf8a5d1c7e4a1f8d5u64, 0x7e6f2c1b4a8d5e9cu64, 0xd7c4b6a8e2f1c5b9u64, 0x7e4a1f8d5c2b9a6eu64],
        seq![0xb4a8d5e9c6b2f8a5u64, 0x8e2f1c5b9a3d7e6fu64, 0x8d5c2b9a6e3f1d7cu64, 0xe9c6b2f8a5d1c7e4u64],
        seq![0x5b9a3d7e6f2c1b4au64, 0xa6e3f1d7c4b6a8e2u64, 0x8a5d1c7e4a1f8d5cu64, 0xe6f2c1b4a8d5e9c6u64],
        seq![0x7c4b6a8e2f1c5b9au64, 0xe4a1f8d5c2b9a6e3u64, 0x4a8d5e9c6b2f8a5du64, 0xe2f1c5b9a3d7e6f2u64],
        seq![0x5c2b9a6e3f1d7c4bu64, 0xc6b2f8a5d1c7e4a1u64, 0x9a3d7e6f2c1b4a8du64, 0xe3f1d7c4b6a8e2f1u64],
        seq![0x5d1c7e4a1f8d5c2bu64, 0xf2c1b4a8d5e9c6b2u64, 0x4b6a8e2f1c5b9a3du64, 0xa1f8d5c2b9a6e3f1u64],
        seq![0x8c3e5f9b2a6d4e7fu64, 0x3f7a1d5c8e2b9f6au64, 0x9e6b3f8a2d5c1e7bu64, 0x2d5f8a3e6b9c1f4du64],
        seq![0x7b4e8a5d2f6c9e3bu64, 0x6c9e3f7a4d8b5f2cu64, 0x5f2a8d6e3b9c7f1eu64, 0x4e7b1f5a8d3c6b9eu64],
        seq![0x1f5d8b3e6c9a7f4bu64, 0x8e3b6f9c2d5a7e1fu64, 0x3c7f1e5b8a4d6c2fu64, 0x6f9d2e5b8c3a7f1du64],
        seq![0x9c4e7f2a5d8b6f3cu64, 0x7e1f4b8d5c2a6f9eu64, 0x2a6f9e3c7b1d5f8au64, 0x5d8f3e6b9c4a7f2du64],
        seq![0x4b7f1e5c8a2d6f9bu64, 0x1e5f8b3c6a9d4f7eu64, 0x8f3a6d9e2c5b7f1au64, 0x3e6b9f4d7a1c5f8eu64],
        seq![0x6d9f2e5a8c3b7f4du64, 0x9e4f7a1d5c8b2f6au64, 0x7a1f4e8d6c3b9f5au64, 0x2f6a9d3e7b4c1f8du64],
        seq![0xf4a7e1d5c8b3f6a9u64, 0x3b7f4e1a5d8c6f2bu64, 0x1d5f8e3a6c9b4f7du64, 0x8c2f6a9e3d7b1f5cu64],
        seq![0xe3d7b1f4a8c5e6b9u64, 0x5f8a2e6d9c3b7f1eu64, 0x4a7f1d5e8b2c6f9au64, 0x7e1f5c8a4d6b3f7eu64],
    ]
}

/// The constant that round `round` adds to lane `lane`.
pub open spec fn rc_spec(round: int, lane: int) -> int {
    round_constant_table()[round % 20][lane] as int
}

/// Looks the round constant up in the fixed cycle.
pub fn round_constant(round: usize, lane: usize) -> (r: u64)
    requires
        lane < 4,
    ensures
        r as int == rc_spec(round as int, lane as int),
{
    proof {
        reveal(round_constant_table);
    }
    let row: usize = round % 20;
    let quad: (u64, u64, u64, u64) = match row {
        0 => (0x6861759ea556a233, 0x4ef8de4df501ae40, 0x296d6b8ca6ce42c1, 0x2ef38af5a47bd0f4),
        1 => (0x101071f0032379b6, 0x6625a4a3d5b4a4b6, 0x2d5b2e8f5a4c8b6a, 0x4a8f2d6b9e3c7f1a),
        2 => (0x3b7f8e2a9d6c4f1e, 0x7e4a1f8d5c2b9a6e, 0x9c6e3f7a1d4c9e6b, 0x1d4c9e6b2f8a5d1c),
        3 => (0x5c2b9a6e3f1d7c4b, 0x8a5d1c7e4a1f8d5c, 0x6b2f8a5d1c7e4a1f, 0x3d7e6f2c1b4a8d5e),
        4 => (0xf1d7c4b6a8e2f1c5, 0x1c7e4a1f8d5c2b9a, 0xc1b4a8d5e9c6b2f8, 0x6a8e2f1c5b9a3d7e),
        5 => (0xf8d5c2b9a6e3f1d7, 0x5e9c6b2f8a5d1c7e, 0xc5b9a3d7e6f2c1b4, 0x9a6e3f1d7c4b6a8e),
        6 => (0xf8a5d1c7e4a1f8d5, 0x7e6f2c1b4a8d5e9c, 0xd7c4b6a8e2f1c5b9, 0x7e4a1f8d5c2b9a6e),
        7 => (0xb4a8d5e9c6b2f8a5, 0x8e2f1c5b9a3d7e6f, 0x8d5c2b9a6e3f1d7c, 0xe9c6b2f8a5d1c7e4),
        8 => (0x5b9a3d7e6f2c1b4a, 0xa6e3f1d7c4b6a8e2, 0x8a5d1c7e4a1f8d5c, 0xe6f2c1b4a8d5e9c6),
        9 => (0x7c4b6a8e2f1c5b9a, 0xe4a1f8d5c2b9a6e3, 0x4a8d5e9c6b2f8a5d, 0xe2f1c5b9a3d7e6f2),
        10 => (0x5c2b9a6e3f1d7c4b, 0xc6b2f8a5d1c7e4a1, 0x9a3d7e6f2c1b4a8d, 0xe3f1d7c4b6a8e2f1),
        11 => (0x5d1c7e4a1f8d5c2b, 0xf2c1b4a8d5e9c6b2, 0x4b6a8e2f1c5b9a3d, 0xa1f8d5c2b9a6e3f1),
        12 => (0x8c3e5f9b2a6d4e7f, 0x3f7a1d5c8e2b9f6a, 0x9e6b3f8a2d5c1e7b, 0x2d5f8a3e6b9c1f4d),
        13 => (0x7b4e8a5d2f6c9e3b, 0x6c9e3f7a4d8b5f2c, 0x5f2a8d6e3b9c7f1e, 0x4e7b1f5a8d3c6b9e),
        14 => (0x1f5d8b3e6c9a7f4b, 0x8e3b6f9c2d5a7e1f, 0x3c7f1e5b8a4d6c2f, 0x6f9d2e5b8c3a7f1d),
        15 => (0x9c4e7f2a5d8b6f3c, 0x7e1f4b8d5c2a6f9e, 0x2a6f9e3c7b1d5f8a, 0x5d8f3e6b9c4a7f2d),
        16 => (0x4b7f1e5c8a2d6f9b, 0x1e5f8b3c6a9d4f7e, 0x8f3a6d9e2c5b7f1a, 0x3e6b9f4d7a1c5f8e),
        17 => (0x6d9f2e5a8c3b7f4d, 0x9e4f7a1d5c8b2f6a, 0x7a1f4e8d6c3b9f5a, 0x2f6a9d3e7b4c1f8d),
        18 => (0xf4a7e1d5c8b3f6a9, 0x3b7f4e1a5d8c6f2b, 0x1d5f8e3a6c9b4f7d, 0x8c2f6a9e3d7b1f5c),
        _ => (0xe3d7b1f4a8c5e6b9, 0x5f8a2e6d9c3b7f1e, 0x4a7f1d5e8b2c6f9a, 0x7e1f5c8a4d6b3f7e),
    };
    if lane == 0 {
        quad.0
    } else if lane == 1 {
        quad.1
    } else if lane == 2 {
        quad.2
    } else {
        quad.3
    }
}

/// ARK step: add this round's constant to every lane.
pub open spec fn ark_spec(s: Seq<int>, round: int) -> Seq<int> {
    seq![
        f_add(s[0], rc_spec(round, 0)),
        f_add(s[1], rc_spec(round, 1)),
        f_add(s[2], rc_spec(round, 2)),
        f_add(s[3], rc_spec(round, 3)),
    ]
}

/// S-box layer of a full round: cube every lane.
pub open spec fn full_sbox_spec(s: Seq<int>) -> Seq<int> {
    seq![f_cube(s[0]), f_cube(s[1]), f_cube(s[2]), f_cube(s[3])]
}

/// S-box layer of a partial round: cube lane 0 only.
pub open spec fn partial_sbox_spec(s: Seq<int>) -> Seq<int> {
    seq![f_cube(s[0]), s[1], s[2], s[3]]
}

/// Multiplication by the fixed MDS matrix
/// `[[5,7,1,3],[4,6,1,1],[1,3,5,7],[1,1,4,6]]`.
pub open spec fn mds_spec(s: Seq<int>) -> Seq<int> {
    seq![
        f_add(f_add(f_add(f_mul(s[0], 5), f_mul(s[1], 7)), s[2]), f_mul(s[3], 3)),
        f_add(f_add(f_add(f_mul(s[0], 4), f_mul(s[1], 6)), s[2]), s[3]),
        f_add(f_add(f_add(s[0], f_mul(s[1], 3)), f_mul(s[2], 5)), f_mul(s[3], 7)),
        f_add(f_add(f_add(s[0], s[1]), f_mul(s[2], 4)), f_mul(s[3], 6)),
    ]
}

/// Rounds 0..6 and 54..60 are full; rounds 6..54 are partial.
pub open spec fn is_full_round(round: int) -> bool {
    round < 6 || round >= 54
}

/// One round of the permutation: ARK, S-box, MDS.
pub open spec fn round_spec(s: Seq<int>, round: int) -> Seq<int> {
    if is_full_round(round) {
        mds_spec(full_sbox_spec(ark_spec(s, round)))
    } else {
        mds_spec(partial_sbox_spec(ark_spec(s, round)))
    }
}

/// The first `n` rounds applied in order.
pub open spec fn rounds_spec(s: Seq<int>, n: int) -> Seq<int>
    decreases n,
{
    if n <= 0 {
        s
    } else {
        round_spec(rounds_spec(s, n - 1), n - 1)
    }
}

/// The full 60-round permutation.
#[verifier::opaque]
pub open spec fn poseidon_spec(s: Seq<int>) -> Seq<int> {
    rounds_spec(s, 60)
}

/// Cubes a field element: two multiplications.
pub fn fe_cube(x: u128) -> (r: u128)
    requires
        in_field(x),
    ensures
        r as int == f_cube(x as int),
        in_field(r),
{
    let sq = fe_mul(x, x);
    fe_mul(sq, x)
}

fn mds_apply(s: Felt4) -> (r: Felt4)
    requires
        s.wf(),
    ensures
        r.wf(),
        r@ == mds_spec(s@),
{
    let r = Felt4 {
        e0: fe_add(fe_add(fe_add(fe_mul(s.e0, 5), fe_mul(s.e1, 7)), s.e2), fe_mul(s.e3, 3)),
        e1: fe_add(fe_add(fe_add(fe_mul(s.e0, 4), fe_mul(s.e1, 6)), s.e2), s.e3),
        e2: fe_add(fe_add(fe_add(s.e0, fe_mul(s.e1, 3)), fe_mul(s.e2, 5)), fe_mul(s.e3, 7)),
        e3: fe_add(fe_add(fe_add(s.e0, s.e1), fe_mul(s.e2, 4)), fe_mul(s.e3, 6)),
    };
    proof {
        assert(r@ =~= mds_spec(s@));
    }
    r
}

fn apply_round(s: Felt4, round: usize) -> (r: Felt4)
    requires
        s.wf(),
    ensures
        r.wf(),
        r@ == round_spec(s@, round as int),
{
    let c0 = round_constant(round, 0) as u128;
    let c1 = round_constant(round, 1) as u128;
    let c2 = round_constant(round, 2) as u128;
    let c3 = round_constant(round, 3) as u128;
    let t = Felt4 {
        e0: fe_add(s.e0, c0),
        e1: fe_add(s.e1, c1),
        e2: fe_add(s.e2, c2),
        e3: fe_add(s.e3, c3),
    };
    proof {
        assert(t@ =~= ark_spec(s@, round as int));
    }
    let u = if round < 6 || round >= 54 {
        let u = Felt4 {
            e0: fe_cube(t.e0),
            e1: fe_cube(t.e1),
            e2: fe_cube(t.e2),
            e3: fe_cube(t.e3),
        };
        proof {
            assert(u@ =~= full_sbox_spec(t@));
        }
        u
    } else {
        let u = Felt4 { e0: fe_cube(t.e0), e1: t.e1, e2: t.e2, e3: t.e3 };
        proof {
            assert(u@ =~= partial_sbox_spec(t@));
        }
        u
    };
    mds_apply(u)
}

/// The 60-round permutation: bit-compatible with the fixed constant table
/// and MDS matrix above.
pub fn poseidon_permutation(state: Felt4) -> (r: Felt4)
    requires
        state.wf(),
    ensures
        r.wf(),
        r@ == poseidon_spec(state@),
{
    let mut s = state;
    let mut round: usize = 0;
    while round < 60
        invariant
            s.wf(),
            round <= 60,
            s@ == rounds_spec(state@, round as int),
        decreases 60 - round,
    {
        s = apply_round(s, round);
        round = round + 1;
    }
    proof {
        reveal(poseidon_spec);
    }
    s
}

/// The all-zero sponge state.
pub open spec fn zero_state() -> Seq<int> {
    seq![0int, 0int, 0int, 0int]
}

/// Adds a chunk of at most 3 inputs to lanes 0..2; lane 3 is the capacity.
pub open spec fn absorb_chunk_spec(s: Seq<int>, chunk: Seq<int>) -> Seq<int> {
    seq![
        if chunk.len() > 0 { f_add(s[0], chunk[0]) } else { s[0] },
        if chunk.len() > 1 { f_add(s[1], chunk[1]) } else { s[1] },
        if chunk.len() > 2 { f_add(s[2], chunk[2]) } else { s[2] },
        s[3],
    ]
}

/// Absorbs all inputs, a chunk of up to 3 at a time, permuting after each.
pub open spec fn sponge_absorb_spec(s: Seq<int>, inputs: Seq<int>) -> Seq<int>
    decreases inputs.len(),
{
    if inputs.len() == 0 {
        s
    } else {
        let k = if inputs.len() >= 3 { 3int } else { inputs.len() as int };
        sponge_absorb_spec(
            poseidon_spec(absorb_chunk_spec(s, inputs.subrange(0, k))),
            inputs.skip(k),
        )
    }
}

/// The sponge: absorb everything from the zero state, then one finalization
/// permutation; the output is the whole 4-lane state.
pub open spec fn zk_hash_spec(inputs: Seq<int>) -> Seq<int> {
    poseidon_spec(sponge_absorb_spec(zero_state(), inputs))
}

/// The canonical integers of a vector of field elements.
pub open spec fn ints_of(s: Seq<u128>) -> Seq<int> {
    s.map_values(|x: u128| x as int)
}

/// Every element of the vector is a canonical field element.
pub open spec fn all_in_field(s: Seq<u128>) -> bool {
    forall|i: int| 0 <= i < s.len() ==> in_field(#[trigger] s[i])
}

proof fn lemma_rounds_spec_len(s: Seq<int>, n: int)
    requires
        s.len() == 4,
    ensures
        rounds_spec(s, n).len() == 4,
    decreases n,
{
    if n > 0 {
        lemma_rounds_spec_len(s, n - 1);
    }
}

/// The permutation preserves the 4-lane shape.
pub proof fn lemma_poseidon_spec_len(s: Seq<int>)
    requires
        s.len() == 4,
    ensures
        poseidon_spec(s).len() == 4,
{
    reveal(poseidon_spec);
    lemma_rounds_spec_len(s, 60);
}

proof fn lemma_sponge_absorb_spec_len(s: Seq<int>, inputs: Seq<int>)
    requires
        s.len() == 4,
    ensures
        sponge_absorb_spec(s, inputs).len() == 4,
    decreases inputs.len(),
{
    if inputs.len() > 0 {
        let k = if inputs.len() >= 3 {
            3int
        } else {
            inputs.len() as int
        };
        lemma_poseidon_spec_len(absorb_chunk_spec(s, inputs.subrange(0, k)));
        lemma_sponge_absorb_spec_len(
            poseidon_spec(absorb_chunk_spec(s, inputs.subrange(0, k))),
            inputs.skip(k),
        );
    }
}

/// A sponge digest always has 4 lanes.
pub proof fn lemma_zk_hash_spec_len(inputs: Seq<int>)
    ensures
        zk_hash_spec(inputs).len() == 4,
{
    lemma_sponge_absorb_spec_len(zero_state(), inputs);
    lemma_poseidon_spec_len(sponge_absorb_spec(zero_state(), inputs));
}

/// One step of the sponge: absorbing all inputs equals absorbing the first
/// chunk, permuting, and absorbing the rest.
proof fn lemma_sponge_unfold(s: Seq<int>, inputs: Seq<int>)
    requires
        inputs.len() > 0,
    ensures
        ({
            let k = if inputs.len() >= 3 { 3int } else { inputs.len() as int };
            sponge_absorb_spec(s, inputs) == sponge_absorb_spec(
                poseidon_spec(absorb_chunk_spec(s, inputs.subrange(0, k))),
                inputs.skip(k),
            )
        }),
{
}

/// Hashes a sequence of field elements with the rate-3 sponge.
pub fn zk_hash(inputs: &Vec<u128>) -> (digest: Felt4)
    requires
        all_in_field(inputs@),
        inputs@.len() <= usize::MAX - 2,
    ensures
        digest.wf(),
        digest@ == zk_hash_spec(ints_of(inputs@)),
{
    let ghost full: Seq<int> = ints_of(inputs@);
    let n = inputs.len();
    let mut st = Felt4::zero();
    let mut idx: usize = 0;
    proof {
        assert(full.len() == n) by {
            assert(full == ints_of(inputs@));
        }
        assert(full.skip(0) =~= full);
    }
    while idx < n
        invariant
            st.wf(),
            n == inputs@.len(),
            n <= usize::MAX - 2,
            idx <= n + 2,
            full == ints_of(inputs@),
            full.len() == n,
            all_in_field(inputs@),
            idx <= n ==> sponge_absorb_spec(st@, full.skip(idx as int)) == sponge_absorb_spec(
                zero_state(),
                full,
            ),
            idx > n ==> st@ == sponge_absorb_spec(zero_state(), full),
        decreases n + 3 - idx,
    {
        let ghost st0 = st@;
        let ghost rem = full.skip(idx as int);
        let ghost k: int = if rem.len() >= 3 { 3int } else { rem.len() as int };
        st.e0 = fe_add(st.e0, inputs[idx]);
        if n - idx > 1 {
            st.e1 = fe_add(st.e1, inputs[idx + 1]);
        }
        if n - idx > 2 {
            st.e2 = fe_add(st.e2, inputs[idx + 2]);
        }
        proof {
            assert(st@ =~= absorb_chunk_spec(st0, rem.subrange(0, k))) by {
                assert(rem.len() == n - idx);
                assert(rem.subrange(0, k)[0] == full[idx as int]);
                assert(full[idx as int] == inputs@[idx as int] as int);
                if k > 1 {
                    assert(rem.subrange(0, k)[1] == full[idx as int + 1]);
                    assert(full[idx as int + 1] == inputs@[idx as int + 1] as int);
                }
                if k > 2 {
                    assert(rem.subrange(0, k)[2] == full[idx as int + 2]);
                    assert(full[idx as int + 2] == inputs@[idx as int + 2] as int);
                }
            }
        }
        st = poseidon_permutation(st);
        proof {
            lemma_sponge_unfold(st0, rem);
            assert(sponge_absorb_spec(zero_state(), full) == sponge_absorb_spec(st@, rem.skip(k)));
            if idx + 3 <= n {
                assert(rem.skip(k) =~= full.skip(idx as int + 3));
            } else {
                assert(k == n - idx);
                assert(rem.skip(k) =~= Seq::<int>::empty());
                assert(sponge_absorb_spec(st@, Seq::<int>::empty()) == st@);
            }
        }
        idx = idx + 3;
    }
    proof {
        if idx <= n {
            assert(idx == n);
            assert(full.skip(n as int) =~= Seq::<int>::empty());
            assert(sponge_absorb_spec(st@, Seq::<int>::empty()) == st@);
        }
    }
    poseidon_permutation(st)
}

} // verus!
