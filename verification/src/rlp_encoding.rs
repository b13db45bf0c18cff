//! Recursive Length Prefix (RLP) encoding of EIP-1559 transactions through the `rlp` crate.
use vstd::prelude::*;
use rlp::RlpStream;
use crate::protocol::TxFields;

verus! {

#[verifier::external_type_specification]
#[verifier::external_body]
pub struct ExRlpStream(rlp::RlpStream);

/// The minimal big-endian bytes of `n` (no leading zero byte; empty for zero).
pub open spec fn be_bytes(n: nat) -> Seq<u8>
    decreases n,
{
    if n == 0 { seq![] } else { be_bytes(n / 256).push((n % 256) as u8) }
}

/// The RLP encoding of the byte string `b`.
pub open spec fn rlp_string(b: Seq<u8>) -> Seq<u8> {
    if b.len() == 1 && b[0] < 0x80 {
        b
    } else if b.len() <= 55 {
        seq![(0x80 + b.len()) as u8] + b
    } else {
        seq![(0xb7 + be_bytes(b.len()).len()) as u8] + be_bytes(b.len()) + b
    }
}

/// The RLP header of a list whose payload has `len` bytes.
pub open spec fn rlp_list_header(len: nat) -> Seq<u8> {
    if len <= 55 {
        seq![(0xc0 + len) as u8]
    } else {
        seq![(0xf7 + be_bytes(len).len()) as u8] + be_bytes(len)
    }
}

/// The bytes written to an RLP stream so far.
pub uninterp spec fn rlp_stream_buffer(s: RlpStream) -> Seq<u8>;

/// The lists begun on an RLP stream and not yet complete: for each, the position where
/// its payload starts, the number of items appended to it, and the number announced.
pub uninterp spec fn rlp_stream_open_lists(s: RlpStream) -> Seq<(nat, nat, nat)>;

/// The buffer and open lists after one more item, encoded as `item`, goes into the only
/// open list; when that list reaches its announced length its header is put before its
/// payload and it is closed.
pub open spec fn rlp_after_item(buf: Seq<u8>, open: (nat, nat, nat), item: Seq<u8>) -> (Seq<u8>, Seq<(nat, nat, nat)>) {
    let b = buf + item;
    let (pos, cur, max) = open;
    if cur + 1 == max {
        (b.take(pos - 1) + rlp_list_header((b.len() - pos) as nat) + b.skip(pos as int), seq![])
    } else {
        (b, seq![(pos, cur + 1, max)])
    }
}

/// A stream with a single open list that can take one more item of `extra` bytes.
pub open spec fn rlp_can_take(s: RlpStream, extra: nat) -> bool {
    &&& rlp_stream_open_lists(s).len() == 1
    &&& rlp_stream_open_lists(s)[0].1 < rlp_stream_open_lists(s)[0].2
    &&& 1 <= rlp_stream_open_lists(s)[0].0 <= rlp_stream_buffer(s).len()
    &&& rlp_stream_buffer(s).len() + extra < 0x1_0000_0000
}

/// Calls `RlpStream::new`. Trusted: the new stream has written nothing and has no open list.
#[verifier::external_body]
fn rlp_new() -> (s: RlpStream)
    ensures
        rlp_stream_buffer(s) == Seq::<u8>::empty(),
        rlp_stream_open_lists(s) == Seq::<(nat, nat, nat)>::empty(),
{
    RlpStream::new()
}

/// Calls `RlpStream::begin_list` with a length above zero on a stream with no open list.
/// Trusted: one placeholder byte is written for the header and a list is opened whose
/// payload starts after it.
#[verifier::external_body]
fn rlp_begin_list(s: &mut RlpStream, len: usize)
    requires
        len > 0,
        rlp_stream_open_lists(*old(s)).len() == 0,
    ensures
        rlp_stream_buffer(*final(s)) == rlp_stream_buffer(*old(s)).push(0u8),
        rlp_stream_open_lists(*final(s)) == seq![((rlp_stream_buffer(*old(s)).len() + 1) as nat, 0nat, len as nat)],
{
    s.begin_list(len);
}

/// Calls `RlpStream::begin_list(0)` inside the open list. Trusted: the empty list `0xc0`
/// is added to it as one item.
#[verifier::external_body]
fn rlp_append_empty_list(s: &mut RlpStream)
    requires
        rlp_can_take(*old(s), 1),
    ensures
        (rlp_stream_buffer(*final(s)), rlp_stream_open_lists(*final(s)))
            == rlp_after_item(rlp_stream_buffer(*old(s)), rlp_stream_open_lists(*old(s))[0], seq![0xc0u8]),
{
    s.begin_list(0);
}

/// Calls `RlpStream::append` with a `u64` inside the open list. Trusted: the item is the
/// RLP string of the minimal big-endian bytes of `v`.
#[verifier::external_body]
fn rlp_append_u64(s: &mut RlpStream, v: u64)
    requires
        rlp_can_take(*old(s), 9),
    ensures
        (rlp_stream_buffer(*final(s)), rlp_stream_open_lists(*final(s)))
            == rlp_after_item(rlp_stream_buffer(*old(s)), rlp_stream_open_lists(*old(s))[0], rlp_string(be_bytes(v as nat))),
{
    s.append(&v);
}

/// Calls `RlpStream::append` with a byte slice inside the open list. Trusted: the item is
/// the RLP string of `b`.
#[verifier::external_body]
fn rlp_append_bytes(s: &mut RlpStream, b: &[u8])
    requires
        rlp_can_take(*old(s), b@.len() + 5),
    ensures
        (rlp_stream_buffer(*final(s)), rlp_stream_open_lists(*final(s)))
            == rlp_after_item(rlp_stream_buffer(*old(s)), rlp_stream_open_lists(*old(s))[0], rlp_string(b@)),
{
    s.append(&b);
}

/// Calls `RlpStream::out` on a stream with no open list. Trusted: the bytes written are
/// handed out.
#[verifier::external_body]
fn rlp_out(s: RlpStream) -> (out: Vec<u8>)
    requires
        rlp_stream_open_lists(s).len() == 0,
    ensures
        out@ == rlp_stream_buffer(s),
{
    s.out().to_vec()
}

} // verus!

verus! {

/// `256` to the power `k`.
pub open spec fn pow256(k: nat) -> nat
    decreases k,
{
    if k == 0 { 1 } else { 256 * pow256((k - 1) as nat) }
}

proof fn lemma_be_bytes_len(n: nat, k: nat)
    requires
        n < pow256(k),
    ensures
        be_bytes(n).len() <= k,
    decreases k,
{
    if n > 0 {
        assert(k > 0);
        let p = pow256((k - 1) as nat);
        assert(n / 256 < p) by (nonlinear_arith)
            requires n < 256 * p, n >= 0;
        lemma_be_bytes_len(n / 256, (k - 1) as nat);
    }
}

proof fn lemma_pow256_values()
    ensures
        pow256(4) == 0x1_0000_0000,
        pow256(8) == 0x1_0000_0000_0000_0000,
        pow256(16) == 0x1_0000_0000_0000_0000_0000_0000_0000_0000,
{
    reveal_with_fuel(pow256, 17);
}

/// The payload of the RLP list of an EIP-1559 transaction: chain id, nonce, priority fee,
/// maximum fee, gas limit, destination, value, call data and an empty access list.
pub open spec fn tx_payload(tx: TxFields) -> Seq<u8> {
    rlp_string(be_bytes(tx.chain_id as nat)) + rlp_string(be_bytes(tx.nonce as nat))
        + rlp_string(be_bytes(tx.max_priority_fee as nat)) + rlp_string(be_bytes(tx.max_fee as nat))
        + rlp_string(be_bytes(tx.gas_limit as nat)) + rlp_string(tx.to@)
        + rlp_string(be_bytes(tx.value as nat)) + rlp_string(tx.data@) + seq![0xc0u8]
}

/// The RLP encoding of the fields of an EIP-1559 transaction.
pub open spec fn tx_rlp(tx: TxFields) -> Seq<u8> {
    rlp_list_header(tx_payload(tx).len()) + tx_payload(tx)
}

/// The minimal big-endian bytes of a 128-bit value.
pub fn be_minimal_u128(value: u128) -> (out: Vec<u8>)
    ensures
        out@ == be_bytes(value as nat),
        out@.len() <= 16,
{
    let mut out: Vec<u8> = Vec::new();
    let mut v = value;
    while v > 0
        invariant
            be_bytes(value as nat) == be_bytes(v as nat) + out@,
        decreases v,
    {
        let ghost before = out@;
        out.insert(0, (v % 256) as u8);
        assert(be_bytes(v as nat) == be_bytes((v / 256) as nat).push((v % 256) as u8));
        assert(be_bytes(v as nat) + before =~= be_bytes((v / 256) as nat) + out@);
        v = v / 256;
    }
    assert(be_bytes(value as nat) =~= out@);
    proof {
        lemma_pow256_values();
        lemma_be_bytes_len(value as nat, 16);
    }
    out
}

proof fn lemma_rlp_string_len(b: Seq<u8>)
    requires
        b.len() < 0x1_0000_0000,
    ensures
        rlp_string(b).len() <= b.len() + 5,
{
    lemma_pow256_values();
    lemma_be_bytes_len(b.len(), 4);
}

/// Encodes the fields of an EIP-1559 transaction as an RLP list.
#[verifier::rlimit(40)]
pub fn encode_tx(tx: &TxFields) -> (out: Vec<u8>)
    requires
        tx.data@.len() < 0xFFFF_0000,
    ensures
        out@ == tx_rlp(*tx),
{
    proof {
        lemma_pow256_values();
        lemma_be_bytes_len(tx.chain_id as nat, 8);
        lemma_be_bytes_len(tx.nonce as nat, 8);
        lemma_be_bytes_len(tx.max_priority_fee as nat, 8);
        lemma_be_bytes_len(tx.max_fee as nat, 8);
        lemma_be_bytes_len(tx.gas_limit as nat, 8);
        lemma_rlp_string_len(tx.data@);
    }
    let ghost i1 = rlp_string(be_bytes(tx.chain_id as nat));
    let ghost i2 = rlp_string(be_bytes(tx.nonce as nat));
    let ghost i3 = rlp_string(be_bytes(tx.max_priority_fee as nat));
    let ghost i4 = rlp_string(be_bytes(tx.max_fee as nat));
    let ghost i5 = rlp_string(be_bytes(tx.gas_limit as nat));
    let ghost i6 = rlp_string(tx.to@);
    let ghost i7 = rlp_string(be_bytes(tx.value as nat));
    let ghost i8 = rlp_string(tx.data@);
    let mut stream = rlp_new();
    rlp_begin_list(&mut stream, 9);
    assert(rlp_stream_buffer(stream) =~= seq![0u8]);
    rlp_append_u64(&mut stream, tx.chain_id);
    assert(rlp_stream_buffer(stream) == seq![0u8] + i1 && rlp_stream_open_lists(stream) == seq![(1nat, 1nat, 9nat)]);
    rlp_append_u64(&mut stream, tx.nonce);
    assert(rlp_stream_buffer(stream) == seq![0u8] + i1 + i2 && rlp_stream_open_lists(stream) == seq![(1nat, 2nat, 9nat)]);
    rlp_append_u64(&mut stream, tx.max_priority_fee);
    assert(rlp_stream_buffer(stream) == seq![0u8] + i1 + i2 + i3 && rlp_stream_open_lists(stream) == seq![(1nat, 3nat, 9nat)]);
    rlp_append_u64(&mut stream, tx.max_fee);
    assert(rlp_stream_buffer(stream) == seq![0u8] + i1 + i2 + i3 + i4 && rlp_stream_open_lists(stream) == seq![(1nat, 4nat, 9nat)]);
    rlp_append_u64(&mut stream, tx.gas_limit);
    assert(rlp_stream_buffer(stream) == seq![0u8] + i1 + i2 + i3 + i4 + i5 && rlp_stream_open_lists(stream) == seq![(1nat, 5nat, 9nat)]);
    rlp_append_bytes(&mut stream, tx.to.as_slice());
    assert(rlp_stream_buffer(stream) == seq![0u8] + i1 + i2 + i3 + i4 + i5 + i6 && rlp_stream_open_lists(stream) == seq![(1nat, 6nat, 9nat)]);
    let value_bytes = be_minimal_u128(tx.value);
    proof { lemma_rlp_string_len(value_bytes@); }
    rlp_append_bytes(&mut stream, value_bytes.as_slice());
    assert(rlp_stream_buffer(stream) == seq![0u8] + i1 + i2 + i3 + i4 + i5 + i6 + i7 && rlp_stream_open_lists(stream) == seq![(1nat, 7nat, 9nat)]);
    rlp_append_bytes(&mut stream, tx.data.as_slice());
    assert(rlp_stream_buffer(stream) == seq![0u8] + i1 + i2 + i3 + i4 + i5 + i6 + i7 + i8 && rlp_stream_open_lists(stream) == seq![(1nat, 8nat, 9nat)]);
    let ghost before_last = rlp_stream_buffer(stream);
    rlp_append_empty_list(&mut stream);
    let ghost b = before_last + seq![0xc0u8];
    assert(b =~= seq![0u8] + tx_payload(*tx));
    assert(b.take(0) =~= Seq::<u8>::empty());
    assert(b.skip(1) =~= tx_payload(*tx));
    assert(rlp_stream_buffer(stream) =~= rlp_list_header(tx_payload(*tx).len()) + tx_payload(*tx));
    rlp_out(stream)
}

} // verus!

verus! {

proof fn lemma_tail_layout(front: Seq<u8>, to: Seq<u8>, v: Seq<u8>, d: Seq<u8>)
    requires
        to.len() == 20,
    ensures
        ({
            let enc = front + (seq![0x94u8] + to) + v + d + seq![0xc0u8];
            let tail = v.len() + d.len() + 1;
            &&& enc.len() >= 21 + tail
            &&& enc[enc.len() - tail - 21] == 0x94
            &&& enc.subrange(enc.len() - tail - 20, enc.len() - tail) == to
            &&& enc.subrange(enc.len() - tail, enc.len() - tail + v.len()) == v
            &&& enc.subrange(enc.len() - 1 - d.len(), enc.len() - 1) == d
            &&& enc.last() == 0xc0
        }),
{
    let enc = front + (seq![0x94u8] + to) + v + d + seq![0xc0u8];
    let tail = v.len() + d.len() + 1;
    let n = enc.len();
    assert(n == front.len() + 21 + tail);
    assert(enc[front.len() as int] == 0x94);
    assert(enc.subrange(n - tail - 20, n - tail) =~= to);
    assert(enc.subrange(n - tail, n - tail + v.len()) =~= v);
    assert(enc.subrange(n - 1 - d.len(), n - 1) =~= d);
}

/// What is signed carries the destination as it is: in the encoding of a transaction, the
/// 20 bytes of `tx.to`, in their own order, follow the byte `0x94` that marks a 20-byte
/// string, and after them come only the value, the call data and the empty access list,
/// each as its own RLP item.
pub proof fn lemma_destination_in_encoding(tx: TxFields)
    ensures
        ({
            let enc = tx_rlp(tx);
            let v = rlp_string(be_bytes(tx.value as nat));
            let d = rlp_string(tx.data@);
            let tail = v.len() + d.len() + 1;
            &&& enc.len() >= 21 + tail
            &&& enc[enc.len() - tail - 21] == 0x94
            &&& enc.subrange(enc.len() - tail - 20, enc.len() - tail) == tx.to@
            &&& enc.subrange(enc.len() - tail, enc.len() - tail + v.len()) == v
            &&& enc.subrange(enc.len() - 1 - d.len(), enc.len() - 1) == d
            &&& enc.last() == 0xc0
        }),
{
    let v = rlp_string(be_bytes(tx.value as nat));
    let d = rlp_string(tx.data@);
    let a = rlp_string(be_bytes(tx.chain_id as nat)) + rlp_string(be_bytes(tx.nonce as nat))
        + rlp_string(be_bytes(tx.max_priority_fee as nat)) + rlp_string(be_bytes(tx.max_fee as nat))
        + rlp_string(be_bytes(tx.gas_limit as nat));
    let to_item = rlp_string(tx.to@);
    let h = rlp_list_header(tx_payload(tx).len());
    lemma_short_string(tx.to@);
    lemma_regroup(h, a, to_item, v, d);
    lemma_tail_layout(h + a, tx.to@, v, d);
}

proof fn lemma_front_layout(h: Seq<u8>, i1: Seq<u8>, i2: Seq<u8>, i3: Seq<u8>, i4: Seq<u8>, i5: Seq<u8>, rest: Seq<u8>)
    ensures
        ({
            let enc = h + (i1 + i2 + i3 + i4 + i5 + rest);
            let o1 = h.len() as int;
            let o2 = o1 + i1.len();
            let o3 = o2 + i2.len();
            let o4 = o3 + i3.len();
            let o5 = o4 + i4.len();
            &&& enc.subrange(0, o1) == h
            &&& enc.subrange(o1, o2) == i1
            &&& enc.subrange(o2, o3) == i2
            &&& enc.subrange(o3, o4) == i3
            &&& enc.subrange(o4, o5) == i4
            &&& enc.subrange(o5, o5 + i5.len()) == i5
        }),
{
    let enc = h + (i1 + i2 + i3 + i4 + i5 + rest);
    let o1 = h.len() as int;
    let o2 = o1 + i1.len();
    let o3 = o2 + i2.len();
    let o4 = o3 + i3.len();
    let o5 = o4 + i4.len();
    assert(enc.subrange(0, o1) =~= h);
    assert(enc.subrange(o1, o2) =~= i1);
    assert(enc.subrange(o2, o3) =~= i2);
    assert(enc.subrange(o3, o4) =~= i3);
    assert(enc.subrange(o4, o5) =~= i4);
    assert(enc.subrange(o5, o5 + i5.len()) =~= i5);
}

/// The encoding of a transaction is an RLP list that starts with its header (for the
/// length of the rest) and then holds, each as its own RLP item and in this order, the
/// chain id, the nonce, the priority fee, the maximum fee and the gas limit, each as its
/// minimal big-endian bytes.
pub proof fn lemma_fields_in_encoding(tx: TxFields)
    ensures
        ({
            let enc = tx_rlp(tx);
            let h = rlp_list_header((enc.len() - rlp_list_header(tx_payload(tx).len()).len()) as nat);
            let i1 = rlp_string(be_bytes(tx.chain_id as nat));
            let i2 = rlp_string(be_bytes(tx.nonce as nat));
            let i3 = rlp_string(be_bytes(tx.max_priority_fee as nat));
            let i4 = rlp_string(be_bytes(tx.max_fee as nat));
            let i5 = rlp_string(be_bytes(tx.gas_limit as nat));
            let o1 = h.len() as int;
            let o2 = o1 + i1.len();
            let o3 = o2 + i2.len();
            let o4 = o3 + i3.len();
            let o5 = o4 + i4.len();
            &&& enc.subrange(0, o1) == h
            &&& enc.subrange(o1, o2) == i1
            &&& enc.subrange(o2, o3) == i2
            &&& enc.subrange(o3, o4) == i3
            &&& enc.subrange(o4, o5) == i4
            &&& enc.subrange(o5, o5 + i5.len()) == i5
        }),
{
    let p = tx_payload(tx);
    let h = rlp_list_header(p.len());
    let rest = rlp_string(tx.to@) + rlp_string(be_bytes(tx.value as nat)) + rlp_string(tx.data@) + seq![0xc0u8];
    lemma_regroup_front(
        rlp_string(be_bytes(tx.chain_id as nat)), rlp_string(be_bytes(tx.nonce as nat)),
        rlp_string(be_bytes(tx.max_priority_fee as nat)), rlp_string(be_bytes(tx.max_fee as nat)),
        rlp_string(be_bytes(tx.gas_limit as nat)), rlp_string(tx.to@), rlp_string(be_bytes(tx.value as nat)),
        rlp_string(tx.data@),
    );
    lemma_front_layout(h, rlp_string(be_bytes(tx.chain_id as nat)), rlp_string(be_bytes(tx.nonce as nat)),
        rlp_string(be_bytes(tx.max_priority_fee as nat)), rlp_string(be_bytes(tx.max_fee as nat)),
        rlp_string(be_bytes(tx.gas_limit as nat)), rest);
}

proof fn lemma_regroup_front(i1: Seq<u8>, i2: Seq<u8>, i3: Seq<u8>, i4: Seq<u8>, i5: Seq<u8>, t: Seq<u8>, v: Seq<u8>, d: Seq<u8>)
    ensures
        i1 + i2 + i3 + i4 + i5 + t + v + d + seq![0xc0u8] == i1 + i2 + i3 + i4 + i5 + (t + v + d + seq![0xc0u8]),
{
    assert(i1 + i2 + i3 + i4 + i5 + t + v + d + seq![0xc0u8] =~= i1 + i2 + i3 + i4 + i5 + (t + v + d + seq![0xc0u8]));
}

proof fn lemma_short_string(b: Seq<u8>)
    requires
        b.len() == 20,
    ensures
        rlp_string(b) == seq![0x94u8] + b,
{
    assert(rlp_string(b) =~= seq![0x94u8] + b);
}

proof fn lemma_regroup(h: Seq<u8>, a: Seq<u8>, t: Seq<u8>, v: Seq<u8>, d: Seq<u8>)
    ensures
        h + (a + t + v + d + seq![0xc0u8]) == (h + a) + t + v + d + seq![0xc0u8],
{
    assert(h + (a + t + v + d + seq![0xc0u8]) =~= (h + a) + t + v + d + seq![0xc0u8]);
}

} // verus!
