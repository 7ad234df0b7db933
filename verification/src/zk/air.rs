//! The algebraic intermediate representation of the chain: the 19-column
//! trace layout, the trace builder, the transition residuals, and the
//! boundary assertions that tie a trace to its public inputs.

use vstd::prelude::*;
use vstd::utf8::encode_utf8;
use crate::Message;
use crate::zk::field::{f_add, f_cube, f_sub, fe_add, fe_sub, in_field};
use crate::zk::poseidon::fe_cube;
use crate::zk::hash::{
    e2h_spec, h2e_spec, hash_to_elements, lemma_element_bytes_roundtrip, lemma_h2e_zero,
    message_inputs_spec, pack_content, truncate_elements, truncate_spec,
};
use crate::zk::hash::message_hash_inputs;
use crate::zk::poseidon::{all_in_field, ints_of, zk_hash, zk_hash_spec, Felt4};
use crate::zk::zero_hash;

verus! {

/// Number of columns in the execution trace:
/// 0..3 previous chain hash, 4..7 chain hash after this message,
/// 8 previous timestamp, 9 timestamp, 10 sender id,
/// 11..17 the message's hash inputs (id, sender, timestamp, 4 content
/// elements), 18 the running partial-hash column.
pub const TRACE_WIDTH: usize = 19;

/// The STARK backend needs at least this many trace rows; shorter chains
/// are padded.
pub const MIN_TRACE_LENGTH: usize = 8;

/// The all-zero previous chain hash of row 0.
pub open spec fn zero4() -> Seq<int> {
    seq![0int, 0int, 0int, 0int]
}

/// The message's packed content elements.
pub open spec fn msg_packed(m: Message) -> Seq<int> {
    crate::zk::hash::pack_content_spec(encode_utf8(m.content@))
}

/// The message's own hash as 4 truncated field elements.
pub open spec fn msg_hash_elts(m: Message) -> Seq<int> {
    truncate_spec(
        zk_hash_spec(message_inputs_spec(m.id, m.sender_id, m.timestamp, encode_utf8(m.content@))),
    )
}

/// The chain hash elements after this message: the sponge over the previous
/// chain hash elements, the message's truncated hash, and the salt.
pub open spec fn chain_step_elts(prev_elts: Seq<int>, m: Message, salt: u64) -> Seq<int> {
    truncate_spec(zk_hash_spec(prev_elts + msg_hash_elts(m) + seq![salt as int]))
}

/// The field sum of a row's message-input columns 11..17.
pub open spec fn sum_inputs(row: Seq<int>) -> int {
    f_add(
        f_add(f_add(f_add(f_add(f_add(row[11], row[12]), row[13]), row[14]), row[15]), row[16]),
        row[17],
    )
}

/// Row 0 of the trace: all-zero previous hash and previous timestamp; the
/// partial-hash column starts at the sum of the message inputs.
pub open spec fn first_row(m: Message, salt: u64) -> Seq<int> {
    let ch = chain_step_elts(zero4(), m, salt);
    let packed = msg_packed(m);
    let head = seq![
        0int,
        0int,
        0int,
        0int,
        ch[0],
        ch[1],
        ch[2],
        ch[3],
        0int,
        m.timestamp as int,
        m.sender_id as int,
        m.id as int,
        m.sender_id as int,
        m.timestamp as int,
        packed[0],
        packed[1],
        packed[2],
        packed[3],
    ];
    head.push(sum_inputs(head))
}

/// A later real row: the previous row's chain hash and timestamp flow in,
/// and the partial-hash column follows the cubic recurrence.
pub open spec fn next_real_row(prev: Seq<int>, m: Message, salt: u64) -> Seq<int> {
    let ch = chain_step_elts(seq![prev[4], prev[5], prev[6], prev[7]], m, salt);
    let packed = msg_packed(m);
    let head = seq![
        prev[4],
        prev[5],
        prev[6],
        prev[7],
        ch[0],
        ch[1],
        ch[2],
        ch[3],
        prev[9],
        m.timestamp as int,
        m.sender_id as int,
        m.id as int,
        m.sender_id as int,
        m.timestamp as int,
        packed[0],
        packed[1],
        packed[2],
        packed[3],
    ];
    head.push(f_add(f_cube(prev[18]), sum_inputs(head)))
}

/// A padding row: the chain hash is carried forward, the timestamp advances
/// by one, the data columns repeat, and the partial-hash recurrence goes on.
pub open spec fn pad_row(prev: Seq<int>) -> Seq<int> {
    let head = seq![
        prev[4],
        prev[5],
        prev[6],
        prev[7],
        prev[4],
        prev[5],
        prev[6],
        prev[7],
        prev[9],
        f_add(prev[9], 1),
        prev[10],
        prev[11],
        prev[12],
        prev[13],
        prev[14],
        prev[15],
        prev[16],
        prev[17],
    ];
    head.push(f_add(f_cube(prev[18]), sum_inputs(head)))
}

/// The trace length for `n` messages: at least the minimum of 8.
pub open spec fn trace_len_spec(n: int) -> int {
    if n < 8 {
        8
    } else {
        n
    }
}

/// Row `step` of the trace built from `msgs` under `salt`.
pub open spec fn row_at(msgs: Seq<Message>, salt: u64, step: int) -> Seq<int>
    decreases step,
{
    if step <= 0 {
        first_row(msgs[0], salt)
    } else if step < msgs.len() {
        next_real_row(row_at(msgs, salt, step - 1), msgs[step], salt)
    } else {
        pad_row(row_at(msgs, salt, step - 1))
    }
}

fn build_first_row(m: &Message, salt: u64) -> (row: Vec<u128>)
    ensures
        row@.len() == 19,
        all_in_field(row@),
        ints_of(row@) == first_row(*m, salt),
{
    let msg_inputs = message_hash_inputs(m.id, m.sender_id, m.timestamp, m.content.as_str());
    let msg_digest = zk_hash(&msg_inputs);
    let msg_trunc = truncate_elements(&msg_digest);
    let mut chain_inputs: Vec<u128> = Vec::new();
    chain_inputs.push(0);
    chain_inputs.push(0);
    chain_inputs.push(0);
    chain_inputs.push(0);
    chain_inputs.push(msg_trunc.e0);
    chain_inputs.push(msg_trunc.e1);
    chain_inputs.push(msg_trunc.e2);
    chain_inputs.push(msg_trunc.e3);
    chain_inputs.push(salt as u128);
    proof {
        assert(ints_of(chain_inputs@) =~= zero4() + msg_hash_elts(*m) + seq![salt as int]);
    }
    let ch_full = zk_hash(&chain_inputs);
    let ch = truncate_elements(&ch_full);
    let packed = pack_content(m.content.as_str());
    let mut row: Vec<u128> = Vec::new();
    row.push(0);
    row.push(0);
    row.push(0);
    row.push(0);
    row.push(ch.e0);
    row.push(ch.e1);
    row.push(ch.e2);
    row.push(ch.e3);
    row.push(0);
    row.push(m.timestamp as u128);
    row.push(m.sender_id as u128);
    row.push(m.id as u128);
    row.push(m.sender_id as u128);
    row.push(m.timestamp as u128);
    row.push(packed.e0);
    row.push(packed.e1);
    row.push(packed.e2);
    row.push(packed.e3);
    let s1 = fe_add(row[11], row[12]);
    let s2 = fe_add(s1, row[13]);
    let s3 = fe_add(s2, row[14]);
    let s4 = fe_add(s3, row[15]);
    let s5 = fe_add(s4, row[16]);
    let s6 = fe_add(s5, row[17]);
    proof {
        let ghost head = ints_of(row@);
        assert(head =~= first_row(*m, salt).take(18));
        assert(s6 as int == sum_inputs(first_row(*m, salt).take(18)));
        assert(sum_inputs(first_row(*m, salt).take(18)) == sum_inputs(first_row(*m, salt))) by {
            assert(first_row(*m, salt).take(18)[11] == first_row(*m, salt)[11]);
            assert(first_row(*m, salt).take(18)[12] == first_row(*m, salt)[12]);
            assert(first_row(*m, salt).take(18)[13] == first_row(*m, salt)[13]);
            assert(first_row(*m, salt).take(18)[14] == first_row(*m, salt)[14]);
            assert(first_row(*m, salt).take(18)[15] == first_row(*m, salt)[15]);
            assert(first_row(*m, salt).take(18)[16] == first_row(*m, salt)[16]);
            assert(first_row(*m, salt).take(18)[17] == first_row(*m, salt)[17]);
        }
    }
    row.push(s6);
    proof {
        assert(ints_of(row@) =~= first_row(*m, salt));
    }
    row
}

fn build_next_real_row(prev: &Vec<u128>, m: &Message, salt: u64) -> (row: Vec<u128>)
    requires
        prev@.len() == 19,
        all_in_field(prev@),
    ensures
        row@.len() == 19,
        all_in_field(row@),
        ints_of(row@) == next_real_row(ints_of(prev@), *m, salt),
{
    let ghost p = ints_of(prev@);
    let msg_inputs = message_hash_inputs(m.id, m.sender_id, m.timestamp, m.content.as_str());
    let msg_digest = zk_hash(&msg_inputs);
    let msg_trunc = truncate_elements(&msg_digest);
    let mut chain_inputs: Vec<u128> = Vec::new();
    chain_inputs.push(prev[4]);
    chain_inputs.push(prev[5]);
    chain_inputs.push(prev[6]);
    chain_inputs.push(prev[7]);
    chain_inputs.push(msg_trunc.e0);
    chain_inputs.push(msg_trunc.e1);
    chain_inputs.push(msg_trunc.e2);
    chain_inputs.push(msg_trunc.e3);
    chain_inputs.push(salt as u128);
    proof {
        assert(ints_of(chain_inputs@) =~= seq![p[4], p[5], p[6], p[7]] + msg_hash_elts(*m)
            + seq![salt as int]);
    }
    let ch_full = zk_hash(&chain_inputs);
    let ch = truncate_elements(&ch_full);
    let packed = pack_content(m.content.as_str());
    let mut row: Vec<u128> = Vec::new();
    row.push(prev[4]);
    row.push(prev[5]);
    row.push(prev[6]);
    row.push(prev[7]);
    row.push(ch.e0);
    row.push(ch.e1);
    row.push(ch.e2);
    row.push(ch.e3);
    row.push(prev[9]);
    row.push(m.timestamp as u128);
    row.push(m.sender_id as u128);
    row.push(m.id as u128);
    row.push(m.sender_id as u128);
    row.push(m.timestamp as u128);
    row.push(packed.e0);
    row.push(packed.e1);
    row.push(packed.e2);
    row.push(packed.e3);
    let s1 = fe_add(row[11], row[12]);
    let s2 = fe_add(s1, row[13]);
    let s3 = fe_add(s2, row[14]);
    let s4 = fe_add(s3, row[15]);
    let s5 = fe_add(s4, row[16]);
    let s6 = fe_add(s5, row[17]);
    let partial = fe_add(fe_cube(prev[18]), s6);
    proof {
        let target = next_real_row(p, *m, salt);
        assert(ints_of(row@) =~= target.take(18));
        assert(sum_inputs(target.take(18)) == sum_inputs(target)) by {
            assert(target.take(18)[11] == target[11]);
            assert(target.take(18)[12] == target[12]);
            assert(target.take(18)[13] == target[13]);
            assert(target.take(18)[14] == target[14]);
            assert(target.take(18)[15] == target[15]);
            assert(target.take(18)[16] == target[16]);
            assert(target.take(18)[17] == target[17]);
        }
    }
    row.push(partial);
    proof {
        assert(ints_of(row@) =~= next_real_row(p, *m, salt));
    }
    row
}

fn build_pad_row(prev: &Vec<u128>) -> (row: Vec<u128>)
    requires
        prev@.len() == 19,
        all_in_field(prev@),
    ensures
        row@.len() == 19,
        all_in_field(row@),
        ints_of(row@) == pad_row(ints_of(prev@)),
{
    let ghost p = ints_of(prev@);
    let mut row: Vec<u128> = Vec::new();
    row.push(prev[4]);
    row.push(prev[5]);
    row.push(prev[6]);
    row.push(prev[7]);
    row.push(prev[4]);
    row.push(prev[5]);
    row.push(prev[6]);
    row.push(prev[7]);
    row.push(prev[9]);
    row.push(fe_add(prev[9], 1));
    row.push(prev[10]);
    row.push(prev[11]);
    row.push(prev[12]);
    row.push(prev[13]);
    row.push(prev[14]);
    row.push(prev[15]);
    row.push(prev[16]);
    row.push(prev[17]);
    let s1 = fe_add(row[11], row[12]);
    let s2 = fe_add(s1, row[13]);
    let s3 = fe_add(s2, row[14]);
    let s4 = fe_add(s3, row[15]);
    let s5 = fe_add(s4, row[16]);
    let s6 = fe_add(s5, row[17]);
    let partial = fe_add(fe_cube(prev[18]), s6);
    proof {
        let target = pad_row(p);
        assert(ints_of(row@) =~= target.take(18));
        assert(sum_inputs(target.take(18)) == sum_inputs(target)) by {
            assert(target.take(18)[11] == target[11]);
            assert(target.take(18)[12] == target[12]);
            assert(target.take(18)[13] == target[13]);
            assert(target.take(18)[14] == target[14]);
            assert(target.take(18)[15] == target[15]);
            assert(target.take(18)[16] == target[16]);
            assert(target.take(18)[17] == target[17]);
        }
    }
    row.push(partial);
    proof {
        assert(ints_of(row@) =~= pad_row(p));
    }
    row
}

/// Builds the execution trace for a sequence of messages: one row per
/// message, padded up to the minimum length of 8; the result is
/// column-oriented, `trace[column][step]`.
pub fn build_trace(messages: &Vec<Message>, salt: u64) -> (trace: Vec<Vec<u128>>)
    requires
        messages@.len() >= 1,
    ensures
        trace@.len() == 19,
        forall|c: int|
            0 <= c < 19 ==> (#[trigger] trace@[c])@.len() == trace_len_spec(
                messages@.len() as int,
            ),
        forall|c: int, s: int|
            0 <= c < 19 && 0 <= s < trace_len_spec(messages@.len() as int) ==> (
            #[trigger] trace@[c]@[s]) as int == row_at(messages@, salt, s)[c],
        forall|c: int| 0 <= c < 19 ==> all_in_field((#[trigger] trace@[c])@),
{
    let n = messages.len();
    let trace_len: usize = if n < 8 {
        8
    } else {
        n
    };
    let mut rows: Vec<Vec<u128>> = Vec::new();
    let first = build_first_row(&messages[0], salt);
    rows.push(first);
    let mut step: usize = 1;
    while step < trace_len
        invariant
            n == messages@.len(),
            1 <= n,
            trace_len == trace_len_spec(n as int),
            1 <= step <= trace_len,
            rows@.len() == step,
            forall|s: int|
                0 <= s < step ==> (#[trigger] rows@[s])@.len() == 19 && all_in_field(rows@[s]@)
                    && ints_of(rows@[s]@) == row_at(messages@, salt, s),
        decreases trace_len - step,
    {
        let row = if step < n {
            build_next_real_row(&rows[step - 1], &messages[step], salt)
        } else {
            build_pad_row(&rows[step - 1])
        };
        rows.push(row);
        step = step + 1;
    }
    let mut trace: Vec<Vec<u128>> = Vec::new();
    let mut c: usize = 0;
    while c < 19
        invariant
            n == messages@.len(),
            trace_len == trace_len_spec(n as int),
            rows@.len() == trace_len,
            forall|s: int|
                0 <= s < trace_len ==> (#[trigger] rows@[s])@.len() == 19 && all_in_field(
                    rows@[s]@,
                ) && ints_of(rows@[s]@) == row_at(messages@, salt, s),
            c <= 19,
            trace@.len() == c,
            forall|cc: int| 0 <= cc < c ==> (#[trigger] trace@[cc])@.len() == trace_len,
            forall|cc: int, s: int|
                0 <= cc < c && 0 <= s < trace_len ==> (#[trigger] trace@[cc]@[s]) == rows@[s]@[cc],
            forall|cc: int| 0 <= cc < c ==> all_in_field((#[trigger] trace@[cc])@),
        decreases 19 - c,
    {
        let mut column: Vec<u128> = Vec::new();
        let mut s: usize = 0;
        while s < trace_len
            invariant
                rows@.len() == trace_len,
                forall|ss: int|
                    0 <= ss < trace_len ==> (#[trigger] rows@[ss])@.len() == 19 && all_in_field(
                        rows@[ss]@,
                    ),
                c < 19,
                s <= trace_len,
                column@.len() == s,
                forall|ss: int| 0 <= ss < s ==> (#[trigger] column@[ss]) == rows@[ss]@[c as int],
                forall|ss: int| 0 <= ss < s ==> in_field(#[trigger] column@[ss]),
            decreases trace_len - s,
        {
            let v = rows[s][c];
            column.push(v);
            s = s + 1;
        }
        trace.push(column);
        c = c + 1;
    }
    proof {
        assert forall|cc: int, s: int|
            0 <= cc < 19 && 0 <= s < trace_len_spec(messages@.len() as int) implies (
        #[trigger] trace@[cc]@[s]) as int == row_at(messages@, salt, s)[cc] by {
            assert(trace@[cc]@[s] == rows@[s]@[cc]);
            assert(ints_of(rows@[s]@)[cc] == rows@[s]@[cc] as int);
        }
    }
    trace
}

/// The six transition residuals of one pair of consecutive rows:
/// chain-hash linking, timestamp linking, and the cubic partial-hash
/// recurrence. All six are zero on every trace the builder produces.
pub open spec fn residuals_spec(curr: Seq<int>, next: Seq<int>) -> Seq<int> {
    seq![
        f_sub(next[0], curr[4]),
        f_sub(next[1], curr[5]),
        f_sub(next[2], curr[6]),
        f_sub(next[3], curr[7]),
        f_sub(next[8], curr[9]),
        f_sub(next[18], f_add(f_cube(curr[18]), sum_inputs(next))),
    ]
}

/// Evaluates the six transition residuals on a pair of consecutive rows.
pub fn evaluate_transition(current: &Vec<u128>, next: &Vec<u128>) -> (r: Vec<u128>)
    requires
        current@.len() == 19,
        next@.len() == 19,
        all_in_field(current@),
        all_in_field(next@),
    ensures
        r@.len() == 6,
        ints_of(r@) == residuals_spec(ints_of(current@), ints_of(next@)),
{
    let mut r: Vec<u128> = Vec::new();
    r.push(fe_sub(next[0], current[4]));
    r.push(fe_sub(next[1], current[5]));
    r.push(fe_sub(next[2], current[6]));
    r.push(fe_sub(next[3], current[7]));
    r.push(fe_sub(next[8], current[9]));
    let s1 = fe_add(next[11], next[12]);
    let s2 = fe_add(s1, next[13]);
    let s3 = fe_add(s2, next[14]);
    let s4 = fe_add(s3, next[15]);
    let s5 = fe_add(s4, next[16]);
    let s6 = fe_add(s5, next[17]);
    r.push(fe_sub(next[18], fe_add(fe_cube(current[18]), s6)));
    proof {
        assert(ints_of(r@) =~= residuals_spec(ints_of(current@), ints_of(next@)));
    }
    r
}

/// The degrees of the six transition constraints: five linear, one cubic.
pub fn transition_constraint_degrees() -> (r: Vec<usize>)
    ensures
        r@ == seq![1usize, 1usize, 1usize, 1usize, 1usize, 3usize],
{
    let mut r: Vec<usize> = Vec::new();
    r.push(1);
    r.push(1);
    r.push(1);
    r.push(1);
    r.push(1);
    r.push(3);
    proof {
        assert(r@ =~= seq![1usize, 1usize, 1usize, 1usize, 1usize, 3usize]);
    }
    r
}

/// Every trace the builder produces satisfies all six transition
/// constraints between each pair of consecutive rows.
pub proof fn lemma_trace_transitions_hold(msgs: Seq<Message>, salt: u64, step: int)
    requires
        msgs.len() >= 1,
        0 <= step,
        step + 1 < trace_len_spec(msgs.len() as int),
    ensures
        residuals_spec(row_at(msgs, salt, step), row_at(msgs, salt, step + 1)) == seq![
            0int,
            0int,
            0int,
            0int,
            0int,
            0int,
        ],
{
    let curr = row_at(msgs, salt, step);
    let next = row_at(msgs, salt, step + 1);
    if step + 1 < msgs.len() {
        let head = next.take(18);
        assert(next == next_real_row(curr, msgs[step + 1], salt));
        assert(sum_inputs(next) == sum_inputs(next_real_row_head(curr, msgs[step + 1], salt)))
            by {
            lemma_sum_same_head(next_real_row_head(curr, msgs[step + 1], salt), next);
        }
    } else {
        assert(next == pad_row(curr));
        assert(sum_inputs(next) == sum_inputs(pad_row_head(curr))) by {
            lemma_sum_same_head(pad_row_head(curr), next);
        }
    }
    assert(residuals_spec(curr, next) =~= seq![0int, 0int, 0int, 0int, 0int, 0int]);
}

/// The first 18 columns of a later real row, before the partial-hash column.
pub open spec fn next_real_row_head(prev: Seq<int>, m: Message, salt: u64) -> Seq<int> {
    next_real_row(prev, m, salt).take(18)
}

/// The first 18 columns of a padding row, before the partial-hash column.
pub open spec fn pad_row_head(prev: Seq<int>) -> Seq<int> {
    pad_row(prev).take(18)
}

proof fn lemma_sum_same_head(head: Seq<int>, row: Seq<int>)
    requires
        head.len() >= 18,
        row.len() >= 18,
        forall|i: int| 11 <= i < 18 ==> head[i] == row[i],
    ensures
        sum_inputs(head) == sum_inputs(row),
{
}

/// The statement a proof attests to: the chain hash before the first
/// message in scope, the chain hash after the last real message, and the
/// number of real messages.
#[derive(Debug)]
pub struct PublicInputs {
    pub initial_hash: Vec<u8>,
    pub final_hash: Vec<u8>,
    pub message_count: usize,
}

impl PublicInputs {
    /// Both hashes are 32 bytes.
    pub open spec fn wf(self) -> bool {
        self.initial_hash@.len() == 32 && self.final_hash@.len() == 32
    }

    /// The element encoding of the public inputs: the initial hash's 4
    /// elements, the final hash's 4 elements, then the message count.
    pub open spec fn to_elements_spec(self) -> Seq<int> {
        h2e_spec(self.initial_hash@) + h2e_spec(self.final_hash@) + seq![self.message_count as int]
    }

    /// Encodes the public inputs as 9 field elements.
    pub fn to_elements(&self) -> (r: Vec<u128>)
        requires
            self.wf(),
        ensures
            r@.len() == 9,
            all_in_field(r@),
            ints_of(r@) == self.to_elements_spec(),
    {
        let init = hash_to_elements(&self.initial_hash);
        let fin = hash_to_elements(&self.final_hash);
        let mut r: Vec<u128> = Vec::new();
        r.push(init.e0);
        r.push(init.e1);
        r.push(init.e2);
        r.push(init.e3);
        r.push(fin.e0);
        r.push(fin.e1);
        r.push(fin.e2);
        r.push(fin.e3);
        r.push(self.message_count as u128);
        proof {
            assert(ints_of(r@) =~= self.to_elements_spec());
        }
        r
    }
}

impl Clone for PublicInputs {
    fn clone(&self) -> (r: Self)
        ensures
            r.initial_hash@ == self.initial_hash@,
            r.final_hash@ == self.final_hash@,
            r.message_count == self.message_count,
    {
        PublicInputs {
            initial_hash: crate::clone_bytes(&self.initial_hash),
            final_hash: crate::clone_bytes(&self.final_hash),
            message_count: self.message_count,
        }
    }
}

/// One boundary assertion: the trace must hold `value` at `(column, step)`.
#[derive(Clone, Copy, Debug, PartialEq, Eq, Structural)]
pub struct TraceAssertion {
    pub column: usize,
    pub step: usize,
    pub value: u128,
}

/// The 8 boundary assertions of the statement: columns 0..3 at step 0 hold
/// the initial hash's elements, and columns 4..7 at the last real message's
/// step hold the final hash's elements.
pub fn boundary_assertions(pub_inputs: &PublicInputs) -> (r: Vec<TraceAssertion>)
    requires
        pub_inputs.wf(),
        pub_inputs.message_count >= 1,
    ensures
        r@.len() == 8,
        forall|i: int|
            0 <= i < 4 ==> (#[trigger] r@[i]) == (TraceAssertion {
                column: i as usize,
                step: 0,
                value: h2e_spec(pub_inputs.initial_hash@)[i] as u128,
            }),
        forall|i: int|
            0 <= i < 4 ==> (#[trigger] r@[4 + i]) == (TraceAssertion {
                column: (4 + i) as usize,
                step: (pub_inputs.message_count - 1) as usize,
                value: h2e_spec(pub_inputs.final_hash@)[i] as u128,
            }),
{
    let init = hash_to_elements(&pub_inputs.initial_hash);
    let fin = hash_to_elements(&pub_inputs.final_hash);
    let last_step = pub_inputs.message_count - 1;
    let mut r: Vec<TraceAssertion> = Vec::new();
    r.push(TraceAssertion { column: 0, step: 0, value: init.e0 });
    r.push(TraceAssertion { column: 1, step: 0, value: init.e1 });
    r.push(TraceAssertion { column: 2, step: 0, value: init.e2 });
    r.push(TraceAssertion { column: 3, step: 0, value: init.e3 });
    r.push(TraceAssertion { column: 4, step: last_step, value: fin.e0 });
    r.push(TraceAssertion { column: 5, step: last_step, value: fin.e1 });
    r.push(TraceAssertion { column: 6, step: last_step, value: fin.e2 });
    r.push(TraceAssertion { column: 7, step: last_step, value: fin.e3 });
    r
}

/// A trace built from the messages satisfies the boundary assertions of the
/// public inputs that `trace_public_inputs_spec` reads off it: the first
/// row's previous chain hash is the all-zero initial hash, and the last real
/// row's chain-hash columns carry the declared final hash.
pub proof fn lemma_trace_boundary_holds(msgs: Seq<Message>, salt: u64)
    requires
        msgs.len() >= 1,
    ensures
        forall|i: int| 0 <= i < 4 ==> row_at(msgs, salt, 0)[i] == h2e_spec(zero_hash())[i],
        forall|i: int|
            0 <= i < 4 ==> #[trigger] row_at(msgs, salt, msgs.len() - 1)[4 + i] == h2e_spec(
                e2h_spec(
                    seq![
                        row_at(msgs, salt, msgs.len() - 1)[4],
                        row_at(msgs, salt, msgs.len() - 1)[5],
                        row_at(msgs, salt, msgs.len() - 1)[6],
                        row_at(msgs, salt, msgs.len() - 1)[7],
                    ],
                ),
            )[i],
{
    lemma_h2e_zero();
    let last = row_at(msgs, salt, msgs.len() - 1);
    let elts = seq![last[4], last[5], last[6], last[7]];
    lemma_row_hash_cols_truncated(msgs, salt, msgs.len() - 1);
    crate::zk::hash::lemma_element_bytes_roundtrip(elts);
    assert forall|i: int| 0 <= i < 4 implies last[4 + i] == h2e_spec(e2h_spec(elts))[i] by {
        assert(h2e_spec(e2h_spec(elts))[i] == crate::zk::hash::truncate64(elts[i]));
    }
}

/// The chain-hash columns 4..7 of every row hold truncated (low-64-bit)
/// values.
pub proof fn lemma_row_hash_cols_truncated(msgs: Seq<Message>, salt: u64, step: int)
    requires
        msgs.len() >= 1,
        0 <= step < trace_len_spec(msgs.len() as int),
    ensures
        forall|i: int|
            4 <= i < 8 ==> {
                let v = #[trigger] row_at(msgs, salt, step)[i];
                0 <= v < crate::zk::hash::LOW64_BOUND as int && crate::zk::hash::truncate64(v) == v
            },
    decreases step,
{
    let row = row_at(msgs, salt, step);
    if step <= 0 {
        let ch = chain_step_elts(zero4(), msgs[0], salt);
        lemma_truncate_spec_bounds(
            zk_hash_spec(zero4() + msg_hash_elts(msgs[0]) + seq![salt as int]),
        );
        assert(row[4] == ch[0] && row[5] == ch[1] && row[6] == ch[2] && row[7] == ch[3]);
    } else if step < msgs.len() {
        let prev = row_at(msgs, salt, step - 1);
        let ch = chain_step_elts(seq![prev[4], prev[5], prev[6], prev[7]], msgs[step], salt);
        lemma_truncate_spec_bounds(
            zk_hash_spec(
                seq![prev[4], prev[5], prev[6], prev[7]] + msg_hash_elts(msgs[step])
                    + seq![salt as int],
            ),
        );
        assert(row[4] == ch[0] && row[5] == ch[1] && row[6] == ch[2] && row[7] == ch[3]);
    } else {
        let prev = row_at(msgs, salt, step - 1);
        lemma_row_hash_cols_truncated(msgs, salt, step - 1);
        assert(row[4] == prev[4] && row[5] == prev[5] && row[6] == prev[6] && row[7] == prev[7]);
    }
    assert forall|i: int| 4 <= i < 8 implies {
        let v = #[trigger] row_at(msgs, salt, step)[i];
        0 <= v < crate::zk::hash::LOW64_BOUND as int && crate::zk::hash::truncate64(v) == v
    } by {
        assert(i == 4 || i == 5 || i == 6 || i == 7);
    }
}

/// For messages whose stored hashes are valid, the chain-hash columns of
/// row `step` carry exactly the element reading of the `MessageChain` fold
/// over the first `step + 1` messages: the trace and the chain agree.
#[verifier::spinoff_prover]
#[verifier::rlimit(100)]
pub proof fn lemma_trace_matches_chain(msgs: Seq<Message>, salt: u64, step: int)
    requires
        msgs.len() >= 1,
        0 <= step < msgs.len(),
        forall|i: int| 0 <= i < msgs.len() ==> (#[trigger] msgs[i]).hash_ok(),
    ensures
        seq![
            row_at(msgs, salt, step)[4],
            row_at(msgs, salt, step)[5],
            row_at(msgs, salt, step)[6],
            row_at(msgs, salt, step)[7],
        ] == h2e_spec(crate::zk::chain_hash_of(msgs.take(step + 1), salt)),
    decreases step,
{
    let row = row_at(msgs, salt, step);
    let m = msgs[step];
    let sub = msgs.take(step + 1);
    assert(sub.len() == step + 1);
    assert(sub.drop_last() =~= msgs.take(step));
    assert(sub.last() == m);
    assert(crate::zk::chain_hash_of(sub, salt) == crate::zk::next_chain_hash(
        crate::zk::chain_hash_of(msgs.take(step), salt),
        m.hash@,
        salt,
    ));
    // The stored hash's elements are the truncated sponge of the message
    // inputs.
    assert(h2e_spec(m.hash@) == msg_hash_elts(m)) by {
        assert(m.hash_ok());
        crate::zk::poseidon::lemma_zk_hash_spec_len(
            message_inputs_spec(m.id, m.sender_id, m.timestamp, encode_utf8(m.content@)),
        );
        lemma_element_bytes_roundtrip(
            zk_hash_spec(
                message_inputs_spec(m.id, m.sender_id, m.timestamp, encode_utf8(m.content@)),
            ),
        );
    }
    if step == 0 {
        let prev_bytes = crate::zk::chain_hash_of(msgs.take(0), salt);
        assert(msgs.take(0) =~= Seq::<Message>::empty());
        assert(prev_bytes == zero_hash());
        lemma_h2e_zero();
        let ch = chain_step_elts(zero4(), m, salt);
        let digest = zk_hash_spec(zero4() + msg_hash_elts(m) + seq![salt as int]);
        assert(h2e_spec(prev_bytes) + h2e_spec(m.hash@) + seq![salt as int] =~= zero4()
            + msg_hash_elts(m) + seq![salt as int]);
        crate::zk::poseidon::lemma_zk_hash_spec_len(zero4() + msg_hash_elts(m) + seq![salt as int]);
        lemma_element_bytes_roundtrip(digest);
        assert(row[4] == ch[0] && row[5] == ch[1] && row[6] == ch[2] && row[7] == ch[3]);
        assert(seq![row[4], row[5], row[6], row[7]] =~= h2e_spec(
            crate::zk::chain_hash_of(sub, salt),
        ));
    } else {
        lemma_trace_matches_chain(msgs, salt, step - 1);
        let prev = row_at(msgs, salt, step - 1);
        let prev_bytes = crate::zk::chain_hash_of(msgs.take(step), salt);
        assert(seq![prev[4], prev[5], prev[6], prev[7]] == h2e_spec(prev_bytes));
        let ch = chain_step_elts(seq![prev[4], prev[5], prev[6], prev[7]], m, salt);
        let digest = zk_hash_spec(
            seq![prev[4], prev[5], prev[6], prev[7]] + msg_hash_elts(m) + seq![salt as int],
        );
        assert(h2e_spec(prev_bytes) + h2e_spec(m.hash@) + seq![salt as int] =~= seq![
            prev[4],
            prev[5],
            prev[6],
            prev[7],
        ] + msg_hash_elts(m) + seq![salt as int]);
        crate::zk::poseidon::lemma_zk_hash_spec_len(
            seq![prev[4], prev[5], prev[6], prev[7]] + msg_hash_elts(m) + seq![salt as int],
        );
        lemma_element_bytes_roundtrip(digest);
        assert(row == next_real_row(prev, m, salt));
        assert(row[4] == ch[0] && row[5] == ch[1] && row[6] == ch[2] && row[7] == ch[3]);
        assert(seq![row[4], row[5], row[6], row[7]] =~= h2e_spec(
            crate::zk::chain_hash_of(sub, salt),
        ));
    }
}

/// The final hash the prover publishes is the chain hash: rendering the
/// last real row's chain-hash columns gives exactly the `MessageChain`
/// fold over all the messages.
pub proof fn lemma_final_hash_matches_chain(msgs: Seq<Message>, salt: u64)
    requires
        msgs.len() >= 1,
        forall|i: int| 0 <= i < msgs.len() ==> (#[trigger] msgs[i]).hash_ok(),
    ensures
        e2h_spec(
            seq![
                row_at(msgs, salt, msgs.len() - 1)[4],
                row_at(msgs, salt, msgs.len() - 1)[5],
                row_at(msgs, salt, msgs.len() - 1)[6],
                row_at(msgs, salt, msgs.len() - 1)[7],
            ],
        ) == crate::zk::chain_hash_of(msgs, salt),
{
    let n = msgs.len() as int;
    lemma_trace_matches_chain(msgs, salt, n - 1);
    assert(msgs.take(n) =~= msgs);
    let ch = crate::zk::chain_hash_of(msgs, salt);
    crate::zk::lemma_chain_hash_len(msgs, salt);
    crate::zk::hash::lemma_bytes_element_roundtrip(ch);
    let row = row_at(msgs, salt, n - 1);
    assert(e2h_spec(seq![row[4], row[5], row[6], row[7]]) == e2h_spec(h2e_spec(ch)));
}

proof fn lemma_truncate_spec_bounds(e: Seq<int>)
    ensures
        forall|i: int|
            0 <= i < 4 ==> {
                let v = #[trigger] truncate_spec(e)[i];
                0 <= v < crate::zk::hash::LOW64_BOUND as int && crate::zk::hash::truncate64(v) == v
            },
{
    assert forall|i: int| 0 <= i < 4 implies {
        let v = #[trigger] truncate_spec(e)[i];
        0 <= v < crate::zk::hash::LOW64_BOUND as int && crate::zk::hash::truncate64(v) == v
    } by {
        let v = truncate_spec(e)[i];
        assert(v == crate::zk::hash::truncate64(e[i]));
    }
}

} // verus!
