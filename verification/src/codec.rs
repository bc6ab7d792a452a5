//! Serialization of `QueryResponse` for the shared cache tier.
//!
//! The format is a compact character framing: every integer is eight chars,
//! little-endian, each char holding one byte value; a string is its length
//! followed by its chars verbatim; a flag is '0' or '1'. Decoding is exact:
//! `decode_spec(emit_resp(r)) == Some(r)`, proved in `lemma_decode_encode`.

use crate::models::{
    QueryResponse, QueryResponseV, SourceResult, SourceResultV, view_opt_string, view_result_seq,
};
use crate::text::{chars_to_string, str_to_chars};
use vstd::prelude::*;

verus! {

/// 256 to the `k`.
pub open spec fn pow256(k: nat) -> nat
    decreases k,
{
    if k == 0 {
        1
    } else {
        256 * pow256((k - 1) as nat)
    }
}

/// `n` in base 256, little-endian, as `k` chars.
pub open spec fn le_chars(n: nat, k: nat) -> Seq<char>
    decreases k,
{
    if k == 0 {
        Seq::empty()
    } else {
        seq![((n % 256) as char)] + le_chars(n / 256, (k - 1) as nat)
    }
}

/// The value of a little-endian chunk of byte-valued chars.
pub open spec fn chunk_val(s: Seq<char>) -> nat
    decreases s.len(),
{
    if s.len() == 0 {
        0
    } else {
        (s[0] as nat) + 256 * chunk_val(s.drop_first())
    }
}

/// Every char of `s` holds a byte value.
pub open spec fn all_byte_chars(s: Seq<char>) -> bool {
    forall|i: int| 0 <= i < s.len() ==> (#[trigger] s[i] as nat) < 256
}

pub open spec fn emit_u64(n: u64) -> Seq<char> {
    le_chars(n as nat, 8)
}

pub open spec fn dec_u64(s: Seq<char>, i: int) -> Option<(u64, int)> {
    if 0 <= i && i + 8 <= s.len() && all_byte_chars(s.subrange(i, i + 8)) {
        Option::Some(((chunk_val(s.subrange(i, i + 8)) as u64), i + 8))
    } else {
        Option::None
    }
}

proof fn lemma_le_chars_len(n: nat, k: nat)
    ensures
        le_chars(n, k).len() == k,
        all_byte_chars(le_chars(n, k)),
    decreases k,
{
    if k > 0 {
        lemma_le_chars_len(n / 256, (k - 1) as nat);
        let s = le_chars(n, k);
        let rest = le_chars(n / 256, (k - 1) as nat);
        assert forall|i: int| 0 <= i < s.len() implies (#[trigger] s[i] as nat) < 256 by {
            if i == 0 {
                assert(s[0] == ((n % 256) as char));
                assert(((n % 256) as char) as nat == n % 256);
            } else {
                assert(s[i] == rest[i - 1]);
            }
        }
    }
}

proof fn lemma_chunk_val_le_chars(n: nat, k: nat)
    requires
        n < pow256(k),
    ensures
        chunk_val(le_chars(n, k)) == n,
    decreases k,
{
    if k == 0 {
        assert(n == 0);
    } else {
        let rest = le_chars(n / 256, (k - 1) as nat);
        let s = le_chars(n, k);
        assert(n / 256 < pow256((k - 1) as nat)) by {
            assert(n < 256 * pow256((k - 1) as nat));
            assert(n / 256 < pow256((k - 1) as nat)) by (nonlinear_arith)
                requires
                    n < 256 * pow256((k - 1) as nat),
                    n >= 0,
            ;
        }
        lemma_chunk_val_le_chars(n / 256, (k - 1) as nat);
        assert(s.drop_first() =~= rest);
        assert(s[0] == ((n % 256) as char));
        assert(((n % 256) as char) as nat == n % 256);
        assert(chunk_val(s) == n % 256 + 256 * (n / 256));
        assert(n % 256 + 256 * (n / 256) == n) by (nonlinear_arith)
            requires
                n >= 0,
        ;
    }
}

proof fn lemma_pow256_8()
    ensures
        pow256(8) == 0x1_0000_0000_0000_0000,
{
    reveal_with_fuel(pow256, 9);
}

/// Reading eight chars right after `pre` out of an emitted integer gives
/// that integer back.
proof fn lemma_dec_u64_emit(pre: Seq<char>, n: u64, rest: Seq<char>)
    ensures
        dec_u64(pre + emit_u64(n) + rest, pre.len() as int) == Option::Some(
            (n, pre.len() + 8 as int),
        ),
{
    let s = pre + emit_u64(n) + rest;
    let i = pre.len() as int;
    lemma_le_chars_len(n as nat, 8);
    assert(s.subrange(i, i + 8) =~= emit_u64(n));
    lemma_pow256_8();
    lemma_chunk_val_le_chars(n as nat, 8);
}

pub open spec fn emit_str(s: Seq<char>) -> Seq<char> {
    emit_u64(s.len() as u64) + s
}

pub open spec fn dec_str(s: Seq<char>, i: int) -> Option<(Seq<char>, int)> {
    match dec_u64(s, i) {
        Option::Some((n, j)) => if j + n <= s.len() {
            Option::Some((s.subrange(j, j + n), j + n))
        } else {
            Option::None
        },
        Option::None => Option::None,
    }
}

/// Reading a string right after `pre` out of an emitted string gives it
/// back, provided its length survived the 64-bit length field.
proof fn lemma_dec_str_emit(pre: Seq<char>, v: Seq<char>, rest: Seq<char>)
    requires
        v.len() <= u64::MAX,
    ensures
        dec_str(pre + emit_str(v) + rest, pre.len() as int) == Option::Some(
            (v, pre.len() + 8 + v.len() as int),
        ),
{
    let s = pre + emit_str(v) + rest;
    let i = pre.len() as int;
    let n = v.len() as u64;
    assert(s =~= pre + emit_u64(n) + (v + rest));
    lemma_dec_u64_emit(pre, n, v + rest);
    assert(dec_u64(s, i) == Option::Some((n, i + 8)));
    lemma_le_chars_len(n as nat, 8);
    assert(s.subrange(i + 8, i + 8 + n) =~= v);
}

pub open spec fn emit_bool(b: bool) -> Seq<char> {
    seq![if b { '1' } else { '0' }]
}

pub open spec fn dec_bool(s: Seq<char>, i: int) -> Option<(bool, int)> {
    if 0 <= i < s.len() && (s[i] == '0' || s[i] == '1') {
        Option::Some((s[i] == '1', i + 1))
    } else {
        Option::None
    }
}

proof fn lemma_dec_bool_emit(pre: Seq<char>, b: bool, rest: Seq<char>)
    ensures
        dec_bool(pre + emit_bool(b) + rest, pre.len() as int) == Option::Some(
            (b, pre.len() + 1 as int),
        ),
{
    let s = pre + emit_bool(b) + rest;
    assert(s[pre.len() as int] == (if b { '1' } else { '0' }));
}

pub open spec fn emit_opt_str(o: Option<Seq<char>>) -> Seq<char> {
    match o {
        Option::Some(v) => seq!['1'] + emit_str(v),
        Option::None => seq!['0'],
    }
}

pub open spec fn dec_opt_str(s: Seq<char>, i: int) -> Option<(Option<Seq<char>>, int)> {
    if 0 <= i < s.len() && s[i] == '0' {
        Option::Some((Option::None, i + 1))
    } else if 0 <= i < s.len() && s[i] == '1' {
        match dec_str(s, i + 1) {
            Option::Some((v, j)) => Option::Some((Option::Some(v), j)),
            Option::None => Option::None,
        }
    } else {
        Option::None
    }
}

/// The emitted size of an optional string.
pub open spec fn opt_str_size(o: Option<Seq<char>>) -> int {
    match o {
        Option::Some(v) => 9 + v.len() as int,
        Option::None => 1,
    }
}

proof fn lemma_dec_opt_str_emit(pre: Seq<char>, o: Option<Seq<char>>, rest: Seq<char>)
    requires
        o matches Option::Some(v) ==> v.len() <= u64::MAX,
    ensures
        dec_opt_str(pre + emit_opt_str(o) + rest, pre.len() as int) == Option::Some(
            (o, pre.len() + opt_str_size(o)),
        ),
{
    let s = pre + emit_opt_str(o) + rest;
    let i = pre.len() as int;
    match o {
        Option::None => {
            assert(s[i] == '0');
        },
        Option::Some(v) => {
            assert(s[i] == '1');
            assert(s =~= (pre + seq!['1']) + emit_str(v) + rest);
            lemma_dec_str_emit(pre + seq!['1'], v, rest);
        },
    }
}

pub open spec fn emit_result(r: SourceResultV) -> Seq<char> {
    emit_str(r.source) + emit_bool(r.success) + emit_u64(r.latency_ms) + emit_opt_str(r.data)
        + emit_opt_str(r.error) + emit_u64(r.confidence as u64) + emit_u64(r.relevance as u64)
}

#[verifier::opaque]
pub open spec fn dec_result(s: Seq<char>, i: int) -> Option<(SourceResultV, int)> {
    match dec_str(s, i) {
        Option::Some((source, i1)) => match dec_bool(s, i1) {
            Option::Some((success, i2)) => match dec_u64(s, i2) {
                Option::Some((latency_ms, i3)) => match dec_opt_str(s, i3) {
                    Option::Some((data, i4)) => match dec_opt_str(s, i4) {
                        Option::Some((error, i5)) => match dec_u64(s, i5) {
                            Option::Some((confidence, i6)) => match dec_u64(s, i6) {
                                Option::Some((relevance, i7)) => if confidence <= u32::MAX as u64
                                    && relevance <= u32::MAX as u64 {
                                    Option::Some(
                                        (
                                            SourceResultV {
                                                source,
                                                success,
                                                latency_ms,
                                                data,
                                                error,
                                                confidence: confidence as u32,
                                                relevance: relevance as u32,
                                            },
                                            i7,
                                        ),
                                    )
                                } else {
                                    Option::None
                                },
                                Option::None => Option::None,
                            },
                            Option::None => Option::None,
                        },
                        Option::None => Option::None,
                    },
                    Option::None => Option::None,
                },
                Option::None => Option::None,
            },
            Option::None => Option::None,
        },
        Option::None => Option::None,
    }
}

/// The string fields of `r` fit the 64-bit length framing.
pub open spec fn encodable_result(r: SourceResultV) -> bool {
    &&& r.source.len() <= u64::MAX
    &&& (r.data matches Option::Some(v) ==> v.len() <= u64::MAX)
    &&& (r.error matches Option::Some(v) ==> v.len() <= u64::MAX)
}

/// Sequence concatenation is associative.
proof fn seq_assoc<A>(a: Seq<A>, b: Seq<A>, c: Seq<A>)
    ensures
        (a + b) + c == a + (b + c),
{
    assert((a + b) + c =~= a + (b + c));
}

proof fn lemma_dec_result_emit(pre: Seq<char>, r: SourceResultV, rest: Seq<char>)
    requires
        encodable_result(r),
    ensures
        dec_result(pre + emit_result(r) + rest, pre.len() as int) == Option::Some(
            (r, pre.len() + emit_result(r).len() as int),
        ),
{
    let e1 = emit_str(r.source);
    let e2 = emit_bool(r.success);
    let e3 = emit_u64(r.latency_ms);
    let e4 = emit_opt_str(r.data);
    let e5 = emit_opt_str(r.error);
    let e6 = emit_u64(r.confidence as u64);
    let e7 = emit_u64(r.relevance as u64);
    let s = pre + emit_result(r) + rest;
    let p0 = pre;
    let p1 = p0 + e1;
    let p2 = p1 + e2;
    let p3 = p2 + e3;
    let p4 = p3 + e4;
    let p5 = p4 + e5;
    let p6 = p5 + e6;
    let p7 = p6 + e7;
    let t7 = rest;
    let t6 = e7 + t7;
    let t5 = e6 + t6;
    let t4 = e5 + t5;
    let t3 = e4 + t4;
    let t2 = e3 + t3;
    let t1 = e2 + t2;
    // pre + emit_result(r) equals p7, by peeling associativity
    assert(pre + emit_result(r) == p7) by {
        seq_assoc(pre, e1 + e2 + e3 + e4 + e5 + e6, e7);
        seq_assoc(pre, e1 + e2 + e3 + e4 + e5, e6);
        seq_assoc(pre, e1 + e2 + e3 + e4, e5);
        seq_assoc(pre, e1 + e2 + e3, e4);
        seq_assoc(pre, e1 + e2, e3);
        seq_assoc(pre, e1, e2);
    }
    // s equals every split p_(k-1) + e_k + t_k
    assert(s == p7 + t7);
    seq_assoc(p6, e7, t7);
    seq_assoc(p5, e6, t6);
    seq_assoc(p4, e5, t5);
    seq_assoc(p3, e4, t4);
    seq_assoc(p2, e3, t3);
    seq_assoc(p1, e2, t2);
    seq_assoc(p0, e1, t1);
    let i0 = pre.len() as int;
    let i1 = i0 + 8 + r.source.len() as int;
    let i2 = i1 + 1;
    let i3 = i2 + 8;
    let i4 = i3 + opt_str_size(r.data);
    let i5 = i4 + opt_str_size(r.error);
    let i6 = i5 + 8;
    let i7 = i6 + 8;
    lemma_le_chars_len(r.source.len() as nat, 8);
    lemma_le_chars_len(r.latency_ms as nat, 8);
    lemma_le_chars_len(r.confidence as nat, 8);
    lemma_le_chars_len(r.relevance as nat, 8);
    assert(opt_str_size(r.data) == e4.len()) by {
        match r.data {
            Option::Some(v) => lemma_le_chars_len(v.len() as nat, 8),
            Option::None => (),
        }
    }
    assert(opt_str_size(r.error) == e5.len()) by {
        match r.error {
            Option::Some(v) => lemma_le_chars_len(v.len() as nat, 8),
            Option::None => (),
        }
    }
    lemma_dec_str_emit(p0, r.source, t1);
    assert(dec_str(s, i0) == Option::Some((r.source, i1)));
    lemma_dec_bool_emit(p1, r.success, t2);
    assert(dec_bool(s, i1) == Option::Some((r.success, i2)));
    lemma_dec_u64_emit(p2, r.latency_ms, t3);
    assert(dec_u64(s, i2) == Option::Some((r.latency_ms, i3)));
    lemma_dec_opt_str_emit(p3, r.data, t4);
    assert(dec_opt_str(s, i3) == Option::Some((r.data, i4)));
    lemma_dec_opt_str_emit(p4, r.error, t5);
    assert(dec_opt_str(s, i4) == Option::Some((r.error, i5)));
    lemma_dec_u64_emit(p5, r.confidence as u64, t6);
    assert(dec_u64(s, i5) == Option::Some((r.confidence as u64, i6)));
    lemma_dec_u64_emit(p6, r.relevance as u64, t7);
    assert(dec_u64(s, i6) == Option::Some((r.relevance as u64, i7)));
    assert(dec_result(s, i0) == Option::Some((r, i7))) by {
        reveal(dec_result);
        assert(((r.confidence as u64) as u32) == r.confidence);
        assert(((r.relevance as u64) as u32) == r.relevance);
    }
    assert(i7 == pre.len() + emit_result(r).len() as int);
}

/// The result list, first result first.
pub open spec fn emit_results(rs: Seq<SourceResultV>) -> Seq<char>
    decreases rs.len(),
{
    if rs.len() == 0 {
        Seq::empty()
    } else {
        emit_result(rs.first()) + emit_results(rs.drop_first())
    }
}

pub open spec fn dec_results(s: Seq<char>, i: int, n: nat) -> Option<(Seq<SourceResultV>, int)>
    decreases n,
{
    if n == 0 {
        Option::Some((Seq::empty(), i))
    } else {
        match dec_result(s, i) {
            Option::Some((v, j)) => match dec_results(s, j, (n - 1) as nat) {
                Option::Some((vs, k)) => Option::Some((seq![v] + vs, k)),
                Option::None => Option::None,
            },
            Option::None => Option::None,
        }
    }
}

proof fn lemma_dec_results_emit(pre: Seq<char>, rs: Seq<SourceResultV>, rest: Seq<char>)
    requires
        forall|i: int| 0 <= i < rs.len() ==> encodable_result(#[trigger] rs[i]),
    ensures
        dec_results(pre + emit_results(rs) + rest, pre.len() as int, rs.len()) == Option::Some(
            (rs, pre.len() + emit_results(rs).len() as int),
        ),
    decreases rs.len(),
{
    let s = pre + emit_results(rs) + rest;
    if rs.len() == 0 {
        assert(rs =~= Seq::<SourceResultV>::empty());
        assert(emit_results(rs) =~= Seq::<char>::empty());
    } else {
        let head = rs.first();
        let tail = rs.drop_first();
        assert(s =~= pre + emit_result(head) + (emit_results(tail) + rest));
        lemma_dec_result_emit(pre, head, emit_results(tail) + rest);
        let p1 = pre + emit_result(head);
        assert(s =~= p1 + emit_results(tail) + rest);
        assert(forall|i: int| 0 <= i < tail.len() ==> encodable_result(#[trigger] tail[i]));
        lemma_dec_results_emit(p1, tail, rest);
        assert(seq![head] + tail =~= rs);
    }
}

pub open spec fn emit_resp(r: QueryResponseV) -> Seq<char> {
    emit_str(r.query_id) + emit_u64(r.latency_ms) + emit_u64(r.sources_queried as u64) + emit_u64(
        r.sources_succeeded as u64,
    ) + emit_bool(r.cache_hit) + emit_u64(r.results.len() as u64) + emit_results(r.results)
}

#[verifier::opaque]
pub open spec fn dec_resp(s: Seq<char>, i: int) -> Option<(QueryResponseV, int)> {
    match dec_str(s, i) {
        Option::Some((query_id, i1)) => match dec_u64(s, i1) {
            Option::Some((latency_ms, i2)) => match dec_u64(s, i2) {
                Option::Some((queried, i3)) => match dec_u64(s, i3) {
                    Option::Some((succeeded, i4)) => match dec_bool(s, i4) {
                        Option::Some((cache_hit, i5)) => match dec_u64(s, i5) {
                            Option::Some((count, i6)) => if queried <= usize::MAX as u64
                                && succeeded <= usize::MAX as u64 {
                                match dec_results(s, i6, count as nat) {
                                    Option::Some((results, i7)) => Option::Some(
                                        (
                                            QueryResponseV {
                                                query_id,
                                                results,
                                                latency_ms,
                                                sources_queried: queried as usize,
                                                sources_succeeded: succeeded as usize,
                                                cache_hit,
                                            },
                                            i7,
                                        ),
                                    ),
                                    Option::None => Option::None,
                                }
                            } else {
                                Option::None
                            },
                            Option::None => Option::None,
                        },
                        Option::None => Option::None,
                    },
                    Option::None => Option::None,
                },
                Option::None => Option::None,
            },
            Option::None => Option::None,
        },
        Option::None => Option::None,
    }
}

/// What a shared-tier payload decodes to, if anything: the exact encoding
/// of one response, with nothing following it.
pub open spec fn decode_spec(s: Seq<char>) -> Option<QueryResponseV> {
    match dec_resp(s, 0) {
        Option::Some((r, j)) => if j == s.len() {
            Option::Some(r)
        } else {
            Option::None
        },
        Option::None => Option::None,
    }
}

/// The response fits the 64-bit framing; every value that ever existed as
/// an executable `QueryResponse` does.
pub open spec fn encodable(r: QueryResponseV) -> bool {
    &&& r.query_id.len() <= u64::MAX
    &&& r.results.len() <= u64::MAX
    &&& forall|i: int| 0 <= i < r.results.len() ==> encodable_result(#[trigger] r.results[i])
}

/// Round trip: decoding an encoded response gives the response back.
pub proof fn lemma_decode_encode(r: QueryResponseV)
    requires
        encodable(r),
    ensures
        decode_spec(emit_resp(r)) == Option::Some(r),
{
    let s = emit_resp(r);
    let p0 = Seq::<char>::empty();
    let p1 = p0 + emit_str(r.query_id);
    let p2 = p1 + emit_u64(r.latency_ms);
    let p3 = p2 + emit_u64(r.sources_queried as u64);
    let p4 = p3 + emit_u64(r.sources_succeeded as u64);
    let p5 = p4 + emit_bool(r.cache_hit);
    let p6 = p5 + emit_u64(r.results.len() as u64);
    let rest = Seq::<char>::empty();
    let j0 = 0int;
    let j1 = j0 + 8 + r.query_id.len() as int;
    let j2 = j1 + 8;
    let j3 = j2 + 8;
    let j4 = j3 + 8;
    let j5 = j4 + 1;
    let j6 = j5 + 8;
    let j7 = j6 + emit_results(r.results).len() as int;
    lemma_le_chars_len(r.query_id.len() as nat, 8);
    lemma_le_chars_len(r.latency_ms as nat, 8);
    lemma_le_chars_len(r.sources_queried as nat, 8);
    lemma_le_chars_len(r.sources_succeeded as nat, 8);
    lemma_le_chars_len(r.results.len() as nat, 8);
    assert(dec_str(s, j0) == Option::Some((r.query_id, j1))) by {
        assert(s =~= p0 + emit_str(r.query_id) + (emit_u64(r.latency_ms) + emit_u64(
            r.sources_queried as u64,
        ) + emit_u64(r.sources_succeeded as u64) + emit_bool(r.cache_hit) + emit_u64(
            r.results.len() as u64,
        ) + emit_results(r.results) + rest));
        lemma_dec_str_emit(
            p0,
            r.query_id,
            emit_u64(r.latency_ms) + emit_u64(r.sources_queried as u64) + emit_u64(
                r.sources_succeeded as u64,
            ) + emit_bool(r.cache_hit) + emit_u64(r.results.len() as u64) + emit_results(r.results)
                + rest,
        );
    }
    assert(dec_u64(s, j1) == Option::Some((r.latency_ms, j2))) by {
        assert(s =~= p1 + emit_u64(r.latency_ms) + (emit_u64(r.sources_queried as u64) + emit_u64(
            r.sources_succeeded as u64,
        ) + emit_bool(r.cache_hit) + emit_u64(r.results.len() as u64) + emit_results(r.results)
            + rest));
        lemma_dec_u64_emit(
            p1,
            r.latency_ms,
            emit_u64(r.sources_queried as u64) + emit_u64(r.sources_succeeded as u64) + emit_bool(
                r.cache_hit,
            ) + emit_u64(r.results.len() as u64) + emit_results(r.results) + rest,
        );
    }
    assert(dec_u64(s, j2) == Option::Some((r.sources_queried as u64, j3))) by {
        assert(s =~= p2 + emit_u64(r.sources_queried as u64) + (emit_u64(
            r.sources_succeeded as u64,
        ) + emit_bool(r.cache_hit) + emit_u64(r.results.len() as u64) + emit_results(r.results)
            + rest));
        lemma_dec_u64_emit(
            p2,
            r.sources_queried as u64,
            emit_u64(r.sources_succeeded as u64) + emit_bool(r.cache_hit) + emit_u64(
                r.results.len() as u64,
            ) + emit_results(r.results) + rest,
        );
    }
    assert(dec_u64(s, j3) == Option::Some((r.sources_succeeded as u64, j4))) by {
        assert(s =~= p3 + emit_u64(r.sources_succeeded as u64) + (emit_bool(r.cache_hit)
            + emit_u64(r.results.len() as u64) + emit_results(r.results) + rest));
        lemma_dec_u64_emit(
            p3,
            r.sources_succeeded as u64,
            emit_bool(r.cache_hit) + emit_u64(r.results.len() as u64) + emit_results(r.results)
                + rest,
        );
    }
    assert(dec_bool(s, j4) == Option::Some((r.cache_hit, j5))) by {
        assert(s =~= p4 + emit_bool(r.cache_hit) + (emit_u64(r.results.len() as u64)
            + emit_results(r.results) + rest));
        lemma_dec_bool_emit(
            p4,
            r.cache_hit,
            emit_u64(r.results.len() as u64) + emit_results(r.results) + rest,
        );
    }
    assert(dec_u64(s, j5) == Option::Some((r.results.len() as u64, j6))) by {
        assert(s =~= p5 + emit_u64(r.results.len() as u64) + (emit_results(r.results) + rest));
        lemma_dec_u64_emit(p5, r.results.len() as u64, emit_results(r.results) + rest);
    }
    assert(dec_results(s, j6, r.results.len()) == Option::Some((r.results, j7))) by {
        assert(s =~= p6 + emit_results(r.results) + rest);
        lemma_dec_results_emit(p6, r.results, rest);
    }
    assert((r.results.len() as u64) as nat == r.results.len());
    assert((r.sources_queried as u64) <= usize::MAX as u64);
    assert((r.sources_succeeded as u64) <= usize::MAX as u64);
    assert(dec_resp(s, 0) == Option::Some((r, j7))) by {
        reveal(dec_resp);
        assert(((r.sources_queried as u64) as usize) == r.sources_queried);
        assert(((r.sources_succeeded as u64) as usize) == r.sources_succeeded);
    }
    assert(j7 == s.len());
}

proof fn lemma_pow256_pos(k: nat)
    ensures
        pow256(k) >= 1,
    decreases k,
{
    if k > 0 {
        lemma_pow256_pos((k - 1) as nat);
        assert(256 * pow256((k - 1) as nat) >= pow256((k - 1) as nat)) by (nonlinear_arith)
            requires
                pow256((k - 1) as nat) >= 1,
        ;
    }
}

proof fn lemma_pow256_le(a: nat, b: nat)
    requires
        a <= b,
    ensures
        pow256(a) <= pow256(b),
    decreases b,
{
    if a < b {
        lemma_pow256_le(a, (b - 1) as nat);
        lemma_pow256_pos((b - 1) as nat);
        assert(pow256((b - 1) as nat) <= 256 * pow256((b - 1) as nat)) by (nonlinear_arith)
            requires
                pow256((b - 1) as nat) >= 0,
        ;
    }
}

/// Appends `n` in base 256, little-endian, as `k` chars.
fn push_le(out: &mut Vec<char>, n: u64, k: usize)
    ensures
        final(out)@ == old(out)@ + le_chars(n as nat, k as nat),
    decreases k,
{
    if k == 0 {
        proof {
            assert(old(out)@ + le_chars(n as nat, 0) =~= old(out)@);
        }
    } else {
        let b: u8 = (n % 256) as u8;
        out.push(b as char);
        push_le(out, n / 256, k - 1);
        proof {
            assert((n % 256) as nat == (n as nat) % 256);
            assert((n / 256) as nat == (n as nat) / 256);
            assert(old(out)@.push((b as char)) =~= old(out)@ + seq![(((n as nat) % 256) as char)]);
            assert(old(out)@ + seq![(((n as nat) % 256) as char)] + le_chars((n as nat) / 256, (
            k - 1) as nat) =~= old(out)@ + le_chars(n as nat, k as nat));
        }
    }
}

/// Appends the eight-char framing of `n`.
fn push_u64(out: &mut Vec<char>, n: u64)
    ensures
        final(out)@ == old(out)@ + emit_u64(n),
{
    push_le(out, n, 8);
}

/// Appends the length-prefixed framing of `s`.
fn push_str_field(out: &mut Vec<char>, s: &String)
    ensures
        final(out)@ == old(out)@ + emit_str(s@),
{
    let mut cs = str_to_chars(s.as_str());
    push_u64(out, cs.len() as u64);
    out.append(&mut cs);
    proof {
        assert(out@ =~= old(out)@ + emit_str(s@));
    }
}

/// Appends the one-char framing of `b`.
fn push_bool(out: &mut Vec<char>, b: bool)
    ensures
        final(out)@ == old(out)@ + emit_bool(b),
{
    if b {
        out.push('1');
    } else {
        out.push('0');
    }
    proof {
        assert(out@ =~= old(out)@ + emit_bool(b));
    }
}

/// Appends the framing of an optional string.
fn push_opt_str(out: &mut Vec<char>, o: &Option<String>)
    ensures
        final(out)@ == old(out)@ + emit_opt_str(view_opt_string(*o)),
{
    match o {
        Option::Some(s) => {
            out.push('1');
            push_str_field(out, s);
            proof {
                assert(out@ =~= old(out)@ + emit_opt_str(view_opt_string(*o)));
            }
        },
        Option::None => {
            out.push('0');
            proof {
                assert(out@ =~= old(out)@ + emit_opt_str(view_opt_string(*o)));
            }
        },
    }
}

/// Appends the framing of one source result.
fn push_result(out: &mut Vec<char>, r: &SourceResult)
    ensures
        final(out)@ == old(out)@ + emit_result(r@),
{
    push_str_field(out, &r.source);
    push_bool(out, r.success);
    push_u64(out, r.latency_ms);
    push_opt_str(out, &r.data);
    push_opt_str(out, &r.error);
    push_u64(out, r.confidence as u64);
    push_u64(out, r.relevance as u64);
    proof {
        assert(out@ =~= old(out)@ + emit_result(r@));
    }
}

proof fn lemma_emit_results_snoc(rs: Seq<SourceResultV>, x: SourceResultV)
    ensures
        emit_results(rs.push(x)) == emit_results(rs) + emit_result(x),
    decreases rs.len(),
{
    if rs.len() == 0 {
        assert(rs.push(x).drop_first() =~= Seq::<SourceResultV>::empty());
        assert(rs.push(x).first() == x);
        assert(emit_results(rs.push(x)) == emit_result(x) + emit_results(
            Seq::<SourceResultV>::empty(),
        ));
        assert(emit_results(Seq::<SourceResultV>::empty()) == Seq::<char>::empty());
        assert(emit_result(x) + Seq::<char>::empty() =~= emit_result(x));
        assert(emit_results(rs) == Seq::<char>::empty());
        assert(emit_results(rs) + emit_result(x) =~= emit_result(x));
    } else {
        assert(rs.push(x).drop_first() =~= rs.drop_first().push(x));
        lemma_emit_results_snoc(rs.drop_first(), x);
        assert(emit_results(rs.push(x)) == emit_result(rs.first()) + (emit_results(rs.drop_first())
            + emit_result(x)));
        seq_assoc(emit_result(rs.first()), emit_results(rs.drop_first()), emit_result(x));
    }
}

/// Serializes a response for the shared tier.
pub fn encode_response(r: &QueryResponse) -> (out: String)
    ensures
        out@ == emit_resp(r@),
{
    let mut out: Vec<char> = Vec::new();
    push_str_field(&mut out, &r.query_id);
    push_u64(&mut out, r.latency_ms);
    push_u64(&mut out, r.sources_queried as u64);
    push_u64(&mut out, r.sources_succeeded as u64);
    push_bool(&mut out, r.cache_hit);
    push_u64(&mut out, r.results.len() as u64);
    let ghost head = out@;
    let mut i: usize = 0;
    proof {
        assert(r@.results.take(0) =~= Seq::<SourceResultV>::empty());
        assert(head + emit_results(r@.results.take(0)) =~= head);
    }
    while i < r.results.len()
        invariant
            i <= r.results.len(),
            r@.results.len() == r.results.len(),
            out@ == head + emit_results(r@.results.take(i as int)),
        decreases r.results.len() - i,
    {
        push_result(&mut out, &r.results[i]);
        proof {
            assert(r@.results.take(i as int + 1) =~= r@.results.take(i as int).push(
                r@.results[i as int],
            ));
            lemma_emit_results_snoc(r@.results.take(i as int), r@.results[i as int]);
            assert(r@.results[i as int] == r.results@[i as int]@);
        }
        i = i + 1;
    }
    proof {
        assert(r@.results.take(r.results.len() as int) =~= r@.results);
        assert(head + emit_results(r@.results) =~= emit_resp(r@));
    }
    chars_to_string(&out)
}

/// Casting a char to `u32` preserves its numeric value.
proof fn lemma_char_u32_value(c: char)
    ensures
        (c as u32) as nat == c as nat,
{
    vstd::utf8::char_is_scalar(c);
    vstd::utf8::char_u32_cast(c, c as u32);
}

proof fn lemma_pow256_7()
    ensures
        pow256(7) == 0x100_0000_0000_0000,
{
    reveal_with_fuel(pow256, 8);
}

/// Reads `k` chars at `i` as a little-endian integer.
fn read_le(s: &Vec<char>, i: usize, k: usize) -> (r: Option<(u64, usize)>)
    requires
        i <= s@.len(),
        k <= 8,
    ensures
        match r {
            Option::Some(p) => {
                &&& p.1 == i + k
                &&& i + k <= s@.len()
                &&& all_byte_chars(s@.subrange(i as int, i as int + k as int))
                &&& p.0 as nat == chunk_val(s@.subrange(i as int, i as int + k as int))
                &&& (p.0 as nat) < pow256(k as nat)
            },
            Option::None => !(i + k <= s@.len() && all_byte_chars(
                s@.subrange(i as int, i as int + k as int),
            )),
        },
    decreases k,
{
    if k == 0 {
        proof {
            assert(s@.subrange(i as int, i as int) =~= Seq::<char>::empty());
        }
        Option::Some((0u64, i))
    } else if i == s.len() {
        Option::None
    } else {
        let c = s[i];
        let cv = c as u32;
        if cv >= 256 {
            proof {
                lemma_char_u32_value(c);
                if i + k <= s@.len() {
                    assert(s@.subrange(i as int, i as int + k as int)[0] == s@[i as int]);
                    assert((s@[i as int] as nat) >= 256);
                }
            }
            Option::None
        } else {
            let inner = read_le(s, i + 1, k - 1);
            proof {
                if i + k <= s@.len() {
                    assert(s@.subrange(i as int + 1, i as int + k as int) =~= s@.subrange(
                        i as int,
                        i as int + k as int,
                    ).drop_first());
                }
            }
            match inner {
                Option::None => {
                    proof {
                        if i + k <= s@.len() && all_byte_chars(
                            s@.subrange(i as int, i as int + k as int),
                        ) {
                            let whole = s@.subrange(i as int, i as int + k as int);
                            let tail = s@.subrange(i as int + 1, i as int + k as int);
                            assert forall|t: int| 0 <= t < tail.len() implies (
                            #[trigger] tail[t] as nat) < 256 by {
                                assert(tail[t] == whole[t + 1]);
                            }
                        }
                    }
                    Option::None
                },
                Option::Some((v2, j2)) => {
                    proof {
                        lemma_pow256_le((k - 1) as nat, 7);
                        lemma_pow256_7();
                        assert(v2 < 0x100_0000_0000_0000);
                    }
                    let v = (cv as u64) + 256u64 * v2;
                    proof {
                        let whole = s@.subrange(i as int, i as int + k as int);
                        let tail = s@.subrange(i as int + 1, i as int + k as int);
                        lemma_char_u32_value(c);
                        assert(whole[0] == s@[i as int]);
                        assert(whole.drop_first() =~= tail);
                        assert(chunk_val(whole) == (c as nat) + 256 * chunk_val(tail));
                        assert forall|t: int| 0 <= t < whole.len() implies (
                        #[trigger] whole[t] as nat) < 256 by {
                            if t == 0 {
                                assert(whole[0] == c);
                                lemma_char_u32_value(c);
                            } else {
                                assert(whole[t] == tail[t - 1]);
                            }
                        }
                        assert((c as nat) + 256 * chunk_val(tail) < pow256(k as nat))
                            by (nonlinear_arith)
                            requires
                                (c as nat) < 256,
                                chunk_val(tail) < pow256((k - 1) as nat),
                                pow256(k as nat) == 256 * pow256((k - 1) as nat),
                        ;
                    }
                    Option::Some((v, j2))
                },
            }
        }
    }
}

/// Reads one framed integer.
fn read_u64(s: &Vec<char>, i: usize) -> (r: Option<(u64, usize)>)
    requires
        i <= s@.len(),
    ensures
        match r {
            Option::Some(p) => {
                &&& dec_u64(s@, i as int) == Option::Some((p.0, p.1 as int))
                &&& p.1 == i + 8
                &&& p.1 <= s@.len()
            },
            Option::None => dec_u64(s@, i as int) is None,
        },
{
    let r = read_le(s, i, 8);
    proof {
        lemma_pow256_8();
    }
    r
}

/// Reads one framed string.
fn read_str(s: &Vec<char>, i: usize) -> (r: Option<(String, usize)>)
    requires
        i <= s@.len(),
    ensures
        match r {
            Option::Some(p) => {
                &&& dec_str(s@, i as int) == Option::Some((p.0@, p.1 as int))
                &&& p.1 <= s@.len()
            },
            Option::None => dec_str(s@, i as int) is None,
        },
{
    match read_u64(s, i) {
        Option::None => Option::None,
        Option::Some((n, j)) => {
            let rem = s.len() - j;
            if n > rem as u64 {
                Option::None
            } else {
                let m = n as usize;
                let mut cs: Vec<char> = Vec::new();
                let mut t: usize = 0;
                proof {
                    assert(j + m <= s@.len());
                    assert(cs@ =~= s@.subrange(j as int, j as int));
                }
                while t < m
                    invariant
                        t <= m,
                        j + m <= s.len(),
                        j + m <= s@.len(),
                        cs@ == s@.subrange(j as int, j as int + t as int),
                    decreases m - t,
                {
                    cs.push(s[j + t]);
                    proof {
                        assert(cs@ =~= s@.subrange(j as int, j as int + t as int + 1));
                    }
                    t = t + 1;
                }
                let out = chars_to_string(&cs);
                Option::Some((out, j + m))
            }
        },
    }
}

/// Reads one framed flag.
fn read_bool(s: &Vec<char>, i: usize) -> (r: Option<(bool, usize)>)
    requires
        i <= s@.len(),
    ensures
        match r {
            Option::Some(p) => {
                &&& dec_bool(s@, i as int) == Option::Some((p.0, p.1 as int))
                &&& p.1 <= s@.len()
            },
            Option::None => dec_bool(s@, i as int) is None,
        },
{
    if i == s.len() {
        Option::None
    } else {
        let c = s[i];
        if c == '1' {
            Option::Some((true, i + 1))
        } else if c == '0' {
            Option::Some((false, i + 1))
        } else {
            Option::None
        }
    }
}

/// Reads one framed optional string.
fn read_opt_str(s: &Vec<char>, i: usize) -> (r: Option<(Option<String>, usize)>)
    requires
        i <= s@.len(),
    ensures
        match r {
            Option::Some(p) => {
                &&& dec_opt_str(s@, i as int) == Option::Some((view_opt_string(p.0), p.1 as int))
                &&& p.1 <= s@.len()
            },
            Option::None => dec_opt_str(s@, i as int) is None,
        },
{
    if i == s.len() {
        Option::None
    } else {
        let c = s[i];
        if c == '0' {
            Option::Some((Option::None, i + 1))
        } else if c == '1' {
            match read_str(s, i + 1) {
                Option::Some((v, j)) => Option::Some((Option::Some(v), j)),
                Option::None => Option::None,
            }
        } else {
            Option::None
        }
    }
}

/// Reads one framed source result.
fn read_result(s: &Vec<char>, i: usize) -> (r: Option<(SourceResult, usize)>)
    requires
        i <= s@.len(),
    ensures
        match r {
            Option::Some(p) => {
                &&& dec_result(s@, i as int) == Option::Some((p.0@, p.1 as int))
                &&& p.1 <= s@.len()
            },
            Option::None => dec_result(s@, i as int) is None,
        },
{
    proof {
        reveal(dec_result);
    }
    let (source, i1) = match read_str(s, i) {
        Option::Some(p) => p,
        Option::None => {
            return Option::None;
        },
    };
    let (success, i2) = match read_bool(s, i1) {
        Option::Some(p) => p,
        Option::None => {
            return Option::None;
        },
    };
    let (latency_ms, i3) = match read_u64(s, i2) {
        Option::Some(p) => p,
        Option::None => {
            return Option::None;
        },
    };
    let (data, i4) = match read_opt_str(s, i3) {
        Option::Some(p) => p,
        Option::None => {
            return Option::None;
        },
    };
    let (error, i5) = match read_opt_str(s, i4) {
        Option::Some(p) => p,
        Option::None => {
            return Option::None;
        },
    };
    let (confidence, i6) = match read_u64(s, i5) {
        Option::Some(p) => p,
        Option::None => {
            return Option::None;
        },
    };
    let (relevance, i7) = match read_u64(s, i6) {
        Option::Some(p) => p,
        Option::None => {
            return Option::None;
        },
    };
    if confidence > u32::MAX as u64 || relevance > u32::MAX as u64 {
        return Option::None;
    }
    let res = SourceResult {
        source,
        success,
        latency_ms,
        data,
        error,
        confidence: confidence as u32,
        relevance: relevance as u32,
    };
    Option::Some((res, i7))
}

/// Reads `n` framed source results.
fn read_results(s: &Vec<char>, i: usize, n: u64) -> (r: Option<(Vec<SourceResult>, usize)>)
    requires
        i <= s@.len(),
    ensures
        match r {
            Option::Some(p) => {
                &&& dec_results(s@, i as int, n as nat) == Option::Some(
                    (view_result_seq(p.0@), p.1 as int),
                )
                &&& p.1 <= s@.len()
            },
            Option::None => dec_results(s@, i as int, n as nat) is None,
        },
    decreases n,
{
    if n == 0 {
        let empty: Vec<SourceResult> = Vec::new();
        proof {
            assert(view_result_seq(empty@) =~= Seq::<SourceResultV>::empty());
        }
        Option::Some((empty, i))
    } else {
        match read_result(s, i) {
            Option::None => Option::None,
            Option::Some((head, j)) => match read_results(s, j, n - 1) {
                Option::None => Option::None,
                Option::Some((tail, k2)) => {
                    let ghost tail_view = view_result_seq(tail@);
                    let mut out = tail;
                    out.insert(0, head);
                    proof {
                        assert(view_result_seq(out@) =~= seq![head@] + tail_view);
                    }
                    Option::Some((out, k2))
                },
            },
        }
    }
}

/// Deserializes a shared-tier payload. Returns the response exactly when
/// the payload is the encoding of one.
pub fn decode_response(s: &str) -> (r: Option<QueryResponse>)
    ensures
        match r {
            Option::Some(resp) => decode_spec(s@) == Option::Some(resp@),
            Option::None => decode_spec(s@) is None,
        },
{
    proof {
        reveal(dec_resp);
    }
    let cs = str_to_chars(s);
    let (query_id, i1) = match read_str(&cs, 0) {
        Option::Some(p) => p,
        Option::None => {
            return Option::None;
        },
    };
    let (latency_ms, i2) = match read_u64(&cs, i1) {
        Option::Some(p) => p,
        Option::None => {
            return Option::None;
        },
    };
    let (queried, i3) = match read_u64(&cs, i2) {
        Option::Some(p) => p,
        Option::None => {
            return Option::None;
        },
    };
    let (succeeded, i4) = match read_u64(&cs, i3) {
        Option::Some(p) => p,
        Option::None => {
            return Option::None;
        },
    };
    let (cache_hit, i5) = match read_bool(&cs, i4) {
        Option::Some(p) => p,
        Option::None => {
            return Option::None;
        },
    };
    let (count, i6) = match read_u64(&cs, i5) {
        Option::Some(p) => p,
        Option::None => {
            return Option::None;
        },
    };
    if queried > usize::MAX as u64 || succeeded > usize::MAX as u64 {
        return Option::None;
    }
    let (results, i7) = match read_results(&cs, i6, count) {
        Option::Some(p) => p,
        Option::None => {
            return Option::None;
        },
    };
    if i7 != cs.len() {
        return Option::None;
    }
    let resp = QueryResponse {
        query_id,
        results,
        latency_ms,
        sources_queried: queried as usize,
        sources_succeeded: succeeded as usize,
        cache_hit,
    };
    Option::Some(resp)
}

} // verus!
