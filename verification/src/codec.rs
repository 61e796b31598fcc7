//! Byte-level framing: fixed-width little-endian serialization of decisions
//! and of the commitment preimage stream, with round-trip and injectivity
//! lemmas, plus hex rendering of byte strings.

use vstd::prelude::*;
use vstd::bytes::{
    lemma_auto_spec_u64_to_from_le_bytes, spec_u64_from_le_bytes, spec_u64_to_le_bytes,
    u64_to_le_bytes,
};
use vstd::string::StringExecFns;
use crate::decision::JOLTDecision;

verus! {

/// Serialized width of one decision: fourteen 8-byte words.
pub const DECISION_BYTES: usize = 112;

/// A decision as its fixed-width byte image: each field in order, as 8
/// little-endian bytes.
pub open spec fn spec_serialize_decision(d: JOLTDecision) -> Seq<u8> {
    spec_u64_to_le_bytes(d.amount) + spec_u64_to_le_bytes(d.recipient_risk)
        + spec_u64_to_le_bytes(d.sender_history) + spec_u64_to_le_bytes(d.time_of_day_risk)
        + spec_u64_to_le_bytes(d.day_of_week_risk) + spec_u64_to_le_bytes(d.jurisdiction_risk)
        + spec_u64_to_le_bytes(d.sanctions_check) + spec_u64_to_le_bytes(d.velocity_score)
        + spec_u64_to_le_bytes(d.pattern_deviation) + spec_u64_to_le_bytes(d.counterparty_score)
        + spec_u64_to_le_bytes(d.network_risk) + spec_u64_to_le_bytes(d.volatility_index)
        + spec_u64_to_le_bytes(d.liquidity_score) + spec_u64_to_le_bytes(d.kyc_completeness)
}

/// The decision read back from a 112-byte image.
pub open spec fn spec_parse_decision(s: Seq<u8>) -> JOLTDecision
    recommends
        s.len() == DECISION_BYTES,
{
    JOLTDecision {
        amount: spec_u64_from_le_bytes(s.subrange(0, 8)),
        recipient_risk: spec_u64_from_le_bytes(s.subrange(8, 16)),
        sender_history: spec_u64_from_le_bytes(s.subrange(16, 24)),
        time_of_day_risk: spec_u64_from_le_bytes(s.subrange(24, 32)),
        day_of_week_risk: spec_u64_from_le_bytes(s.subrange(32, 40)),
        jurisdiction_risk: spec_u64_from_le_bytes(s.subrange(40, 48)),
        sanctions_check: spec_u64_from_le_bytes(s.subrange(48, 56)),
        velocity_score: spec_u64_from_le_bytes(s.subrange(56, 64)),
        pattern_deviation: spec_u64_from_le_bytes(s.subrange(64, 72)),
        counterparty_score: spec_u64_from_le_bytes(s.subrange(72, 80)),
        network_risk: spec_u64_from_le_bytes(s.subrange(80, 88)),
        volatility_index: spec_u64_from_le_bytes(s.subrange(88, 96)),
        liquidity_score: spec_u64_from_le_bytes(s.subrange(96, 104)),
        kyc_completeness: spec_u64_from_le_bytes(s.subrange(104, 112)),
    }
}

/// The byte image of a decision is always 112 bytes long.
pub proof fn lemma_serialize_decision_len(d: JOLTDecision)
    ensures
        spec_serialize_decision(d).len() == DECISION_BYTES,
{
    lemma_auto_spec_u64_to_from_le_bytes();
}

/// Parsing inverts serialization: the byte image of a decision reads back as
/// that decision.
pub proof fn lemma_serialize_decision_roundtrip(d: JOLTDecision)
    ensures
        spec_serialize_decision(d).len() == DECISION_BYTES,
        spec_parse_decision(spec_serialize_decision(d)) == d,
{
    lemma_auto_spec_u64_to_from_le_bytes();
    let s = spec_serialize_decision(d);
    assert(s.subrange(0, 8) =~= spec_u64_to_le_bytes(d.amount));
    assert(s.subrange(8, 16) =~= spec_u64_to_le_bytes(d.recipient_risk));
    assert(s.subrange(16, 24) =~= spec_u64_to_le_bytes(d.sender_history));
    assert(s.subrange(24, 32) =~= spec_u64_to_le_bytes(d.time_of_day_risk));
    assert(s.subrange(32, 40) =~= spec_u64_to_le_bytes(d.day_of_week_risk));
    assert(s.subrange(40, 48) =~= spec_u64_to_le_bytes(d.jurisdiction_risk));
    assert(s.subrange(48, 56) =~= spec_u64_to_le_bytes(d.sanctions_check));
    assert(s.subrange(56, 64) =~= spec_u64_to_le_bytes(d.velocity_score));
    assert(s.subrange(64, 72) =~= spec_u64_to_le_bytes(d.pattern_deviation));
    assert(s.subrange(72, 80) =~= spec_u64_to_le_bytes(d.counterparty_score));
    assert(s.subrange(80, 88) =~= spec_u64_to_le_bytes(d.network_risk));
    assert(s.subrange(88, 96) =~= spec_u64_to_le_bytes(d.volatility_index));
    assert(s.subrange(96, 104) =~= spec_u64_to_le_bytes(d.liquidity_score));
    assert(s.subrange(104, 112) =~= spec_u64_to_le_bytes(d.kyc_completeness));
}

/// Serialization is injective: distinct decisions have distinct byte images.
pub proof fn lemma_serialize_decision_injective(d1: JOLTDecision, d2: JOLTDecision)
    requires
        spec_serialize_decision(d1) == spec_serialize_decision(d2),
    ensures
        d1 == d2,
{
    lemma_serialize_decision_roundtrip(d1);
    lemma_serialize_decision_roundtrip(d2);
}

/// Append the 8 little-endian bytes of `x` to `out`.
pub(crate) fn push_le_bytes(out: &mut Vec<u8>, x: u64)
    ensures
        final(out)@ == old(out)@ + spec_u64_to_le_bytes(x),
{
    let b = u64_to_le_bytes(x);
    let mut i: usize = 0;
    while i < 8
        invariant
            b@ == spec_u64_to_le_bytes(x),
            b@.len() == 8,
            i <= 8,
            out@ == old(out)@ + b@.take(i as int),
        decreases 8 - i,
    {
        out.push(b[i]);
        proof {
            assert(old(out)@ + b@.take(i as int) + seq![b@[i as int]] =~= old(out)@ + b@.take(
                i as int + 1,
            ));
        }
        i += 1;
    }
    proof {
        assert(b@.take(8) =~= b@);
    }
}

/// Copy 32 bytes out of `src` starting at `start`.
pub(crate) fn read_bytes32(src: &[u8], start: usize) -> (out: [u8; 32])
    requires
        start + 32 <= src@.len(),
    ensures
        out@ == src@.subrange(start as int, start as int + 32),
{
    let n = src.len();
    let mut out: [u8; 32] = [0u8; 32];
    let mut i: usize = 0;
    while i < 32
        invariant
            i <= 32,
            start + 32 <= n,
            n == src@.len(),
            forall|j: int| 0 <= j < i ==> out@[j] == src@[start + j],
        decreases 32 - i,
    {
        out[i] = src[start + i];
        i += 1;
    }
    proof {
        assert(out@ =~= src@.subrange(start as int, start as int + 32));
    }
    out
}

/// Append all 32 bytes of `a` to `out`.
pub(crate) fn push_bytes32(out: &mut Vec<u8>, a: &[u8; 32])
    ensures
        final(out)@ == old(out)@ + a@,
{
    let mut i: usize = 0;
    while i < 32
        invariant
            i <= 32,
            out@ == old(out)@ + a@.take(i as int),
        decreases 32 - i,
    {
        out.push(a[i]);
        proof {
            assert(old(out)@ + a@.take(i as int) + seq![a@[i as int]] =~= old(out)@ + a@.take(
                i as int + 1,
            ));
        }
        i += 1;
    }
    proof {
        assert(a@.take(32) =~= a@);
    }
}

/// Serialize one decision into its fixed 112-byte image.
pub fn serialize_decision(d: &JOLTDecision) -> (r: Vec<u8>)
    ensures
        r@ == spec_serialize_decision(*d),
        r@.len() == DECISION_BYTES,
{
    let mut out: Vec<u8> = Vec::new();
    push_le_bytes(&mut out, d.amount);
    push_le_bytes(&mut out, d.recipient_risk);
    push_le_bytes(&mut out, d.sender_history);
    push_le_bytes(&mut out, d.time_of_day_risk);
    push_le_bytes(&mut out, d.day_of_week_risk);
    push_le_bytes(&mut out, d.jurisdiction_risk);
    push_le_bytes(&mut out, d.sanctions_check);
    push_le_bytes(&mut out, d.velocity_score);
    push_le_bytes(&mut out, d.pattern_deviation);
    push_le_bytes(&mut out, d.counterparty_score);
    push_le_bytes(&mut out, d.network_risk);
    push_le_bytes(&mut out, d.volatility_index);
    push_le_bytes(&mut out, d.liquidity_score);
    push_le_bytes(&mut out, d.kyc_completeness);
    proof {
        lemma_serialize_decision_len(*d);
        assert(Seq::<u8>::empty() + spec_u64_to_le_bytes(d.amount) =~= spec_u64_to_le_bytes(
            d.amount,
        ));
        assert(out@ =~= spec_serialize_decision(*d));
    }
    out
}

/// The ordered byte images of a whole decision log, concatenated.
pub open spec fn spec_log_bytes(log: Seq<JOLTDecision>) -> Seq<u8>
    decreases log.len(),
{
    if log.len() == 0 {
        Seq::empty()
    } else {
        spec_log_bytes(log.drop_last()) + spec_serialize_decision(log.last())
    }
}

/// The commitment preimage: the iteration counter, then every decision of
/// the log in order, each in fixed-width little-endian form.
pub open spec fn spec_stream(log: Seq<JOLTDecision>, iteration: u64) -> Seq<u8> {
    spec_u64_to_le_bytes(iteration) + spec_log_bytes(log)
}

/// The log image is 112 bytes per decision.
pub proof fn lemma_log_bytes_len(log: Seq<JOLTDecision>)
    ensures
        spec_log_bytes(log).len() == DECISION_BYTES * log.len(),
    decreases log.len(),
{
    if log.len() == 0 {
    } else {
        lemma_log_bytes_len(log.drop_last());
        lemma_serialize_decision_len(log.last());
    }
}

/// Distinct logs have distinct byte images.
pub proof fn lemma_log_bytes_injective(l1: Seq<JOLTDecision>, l2: Seq<JOLTDecision>)
    requires
        spec_log_bytes(l1) == spec_log_bytes(l2),
    ensures
        l1 == l2,
    decreases l1.len(),
{
    lemma_log_bytes_len(l1);
    lemma_log_bytes_len(l2);
    assert(l1.len() == l2.len()) by (nonlinear_arith)
        requires
            DECISION_BYTES * l1.len() == DECISION_BYTES * l2.len(),
    ;
    if l1.len() == 0 {
        assert(l1 =~= l2);
    } else {
        let a1 = spec_log_bytes(l1.drop_last());
        let b1 = spec_serialize_decision(l1.last());
        let a2 = spec_log_bytes(l2.drop_last());
        let b2 = spec_serialize_decision(l2.last());
        lemma_log_bytes_len(l1.drop_last());
        lemma_log_bytes_len(l2.drop_last());
        lemma_serialize_decision_len(l1.last());
        lemma_serialize_decision_len(l2.last());
        assert(a1.len() == a2.len()) by (nonlinear_arith)
            requires
                a1.len() == DECISION_BYTES * (l1.len() - 1),
                a2.len() == DECISION_BYTES * (l2.len() - 1),
                l1.len() == l2.len(),
        ;
        assert(a1 =~= a2) by {
            assert(forall|i: int|
                0 <= i < a1.len() ==> a1[i] == (a1 + b1)[i] && a2[i] == (a2 + b2)[i]);
        }
        assert(b1 =~= b2) by {
            assert(forall|i: int|
                0 <= i < b1.len() ==> b1[i] == (a1 + b1)[a1.len() + i] && b2[i] == (a2 + b2)[
                    a2.len() + i
                ]);
        }
        lemma_serialize_decision_injective(l1.last(), l2.last());
        lemma_log_bytes_injective(l1.drop_last(), l2.drop_last());
        assert(l1 =~= l2) by {
            assert(forall|i: int|
                0 <= i < l1.len() - 1 ==> l1[i] == l1.drop_last()[i] && l2[i] == l2.drop_last()[i]);
        }
    }
}

/// Law: the commitment preimage pins down the whole history. Two histories
/// that differ anywhere — a reordered pair of decisions, an appended or
/// dropped decision, or a different iteration counter — have different
/// preimage streams, so equal commitments over different histories would
/// exhibit a SHA-256 collision.
pub proof fn lemma_stream_injective(
    l1: Seq<JOLTDecision>,
    k1: u64,
    l2: Seq<JOLTDecision>,
    k2: u64,
)
    requires
        l1 != l2 || k1 != k2,
    ensures
        spec_stream(l1, k1) != spec_stream(l2, k2),
{
    lemma_auto_spec_u64_to_from_le_bytes();
    if spec_stream(l1, k1) == spec_stream(l2, k2) {
        let h1 = spec_u64_to_le_bytes(k1);
        let h2 = spec_u64_to_le_bytes(k2);
        let lb1 = spec_log_bytes(l1);
        let lb2 = spec_log_bytes(l2);
        assert(h1 + lb1 == h2 + lb2);
        lemma_log_bytes_len(l1);
        lemma_log_bytes_len(l2);
        assert(lb1.len() == lb2.len());
        assert(h1 =~= h2) by {
            assert forall|i: int| 0 <= i < 8 implies h1[i] == h2[i] by {
                assert((h1 + lb1)[i] == (h2 + lb2)[i]);
            }
        }
        assert(k1 == k2);
        assert(lb1 =~= lb2) by {
            assert forall|i: int| 0 <= i < lb1.len() implies lb1[i] == lb2[i] by {
                assert((h1 + lb1)[8 + i] == (h2 + lb2)[8 + i]);
            }
        }
        lemma_log_bytes_injective(l1, l2);
    }
}

/// Serialize the commitment preimage of a log and iteration counter.
pub fn stream_bytes(log: &Vec<JOLTDecision>, iteration: u64) -> (r: Vec<u8>)
    ensures
        r@ == spec_stream(log@, iteration),
{
    let mut out: Vec<u8> = Vec::new();
    push_le_bytes(&mut out, iteration);
    let mut i: usize = 0;
    while i < log.len()
        invariant
            i <= log@.len(),
            out@ == spec_u64_to_le_bytes(iteration) + spec_log_bytes(log@.take(i as int)),
        decreases log@.len() - i,
    {
        let mut block = serialize_decision(&log[i]);
        out.append(&mut block);
        proof {
            assert(log@.take(i as int + 1).drop_last() =~= log@.take(i as int));
            assert(log@.take(i as int + 1).last() == log@[i as int]);
            assert(spec_u64_to_le_bytes(iteration) + spec_log_bytes(log@.take(i as int))
                + spec_serialize_decision(log@[i as int]) =~= spec_u64_to_le_bytes(iteration)
                + spec_log_bytes(log@.take(i as int + 1)));
        }
        i += 1;
    }
    proof {
        assert(log@.take(log@.len() as int) =~= log@);
        assert(Seq::<u8>::empty() + spec_u64_to_le_bytes(iteration) =~= spec_u64_to_le_bytes(
            iteration,
        ));
    }
    out
}

/// The sixteen lowercase hex digit characters.
pub open spec fn spec_hex_digit(n: u8) -> char
    recommends
        n < 16,
{
    seq!['0', '1', '2', '3', '4', '5', '6', '7', '8', '9', 'a', 'b', 'c', 'd', 'e', 'f'][n as int]
}

/// Lowercase hex rendering of a byte string: two digits per byte, high
/// nibble first.
pub open spec fn spec_hex(bytes: Seq<u8>) -> Seq<char>
    decreases bytes.len(),
{
    if bytes.len() == 0 {
        Seq::empty()
    } else {
        spec_hex(bytes.drop_last()) + seq![
            spec_hex_digit(bytes.last() / 16),
            spec_hex_digit(bytes.last() % 16),
        ]
    }
}

/// One hex digit as a string slice.
fn hex_digit_str(n: u8) -> (r: &'static str)
    requires
        n < 16,
    ensures
        r@ == seq![spec_hex_digit(n)],
{
    let r: &'static str = match n {
        0 => "0",
        1 => "1",
        2 => "2",
        3 => "3",
        4 => "4",
        5 => "5",
        6 => "6",
        7 => "7",
        8 => "8",
        9 => "9",
        10 => "a",
        11 => "b",
        12 => "c",
        13 => "d",
        14 => "e",
        _ => "f",
    };
    proof {
        reveal_strlit("0");
        reveal_strlit("1");
        reveal_strlit("2");
        reveal_strlit("3");
        reveal_strlit("4");
        reveal_strlit("5");
        reveal_strlit("6");
        reveal_strlit("7");
        reveal_strlit("8");
        reveal_strlit("9");
        reveal_strlit("a");
        reveal_strlit("b");
        reveal_strlit("c");
        reveal_strlit("d");
        reveal_strlit("e");
        reveal_strlit("f");
        assert(r@ =~= seq![spec_hex_digit(n)]);
    }
    r
}

/// Decimal rendering of a number, most significant digit first. Digits below
/// ten share the hex digit table.
pub open spec fn spec_dec(n: nat) -> Seq<char>
    decreases n,
{
    if n < 10 {
        seq![spec_hex_digit(n as u8)]
    } else {
        spec_dec(n / 10) + seq![spec_hex_digit((n % 10) as u8)]
    }
}

/// Render a number in decimal.
pub fn u64_to_dec(n: u64) -> (s: String)
    ensures
        s@ == spec_dec(n as nat),
    decreases n,
{
    if n < 10 {
        let s = String::from_str(hex_digit_str(n as u8));
        proof {
            assert(s@ =~= spec_dec(n as nat));
        }
        s
    } else {
        let mut s = u64_to_dec(n / 10);
        s.append(hex_digit_str((n % 10) as u8));
        proof {
            assert(s@ =~= spec_dec(n as nat));
        }
        s
    }
}

/// Render a byte string as lowercase hex, two digits per byte.
pub fn encode(data: &[u8]) -> (s: String)
    ensures
        s@ == spec_hex(data@),
{
    let mut s = String::new();
    let mut i: usize = 0;
    while i < data.len()
        invariant
            i <= data@.len(),
            s@ == spec_hex(data@.take(i as int)),
        decreases data@.len() - i,
    {
        let b = data[i];
        s.append(hex_digit_str(b / 16));
        s.append(hex_digit_str(b % 16));
        proof {
            assert(data@.take(i as int + 1).drop_last() =~= data@.take(i as int));
            assert(data@.take(i as int + 1).last() == data@[i as int]);
            assert(spec_hex(data@.take(i as int)) + seq![spec_hex_digit(data@[i as int] / 16)]
                + seq![spec_hex_digit(data@[i as int] % 16)] =~= spec_hex(
                data@.take(i as int + 1),
            ));
        }
        i += 1;
    }
    proof {
        assert(data@.take(data@.len() as int) =~= data@);
    }
    s
}

} // verus!
