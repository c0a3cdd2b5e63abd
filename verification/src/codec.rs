//! Canonical byte encoding of transactions, the signing messages derived
//! from it, and the content-addressed hashes over it.
//!
//! Member order is significant everywhere: a batch's aggregate signature
//! covers the digest of all members' canonical encodings concatenated in
//! submission order.

use vstd::prelude::*;
use crate::types::{Address, SignedTx, Tx, TxHash};

verus! {

/// The digest that `tiny_keccak::keccak256` computes for the given bytes.
/// Named rather than spelled out: the result depends on the input alone.
pub uninterp spec fn keccak_of(data: Seq<u8>) -> Seq<u8>;

/// Relies on `tiny_keccak::keccak256`: a 32-byte Keccak-256 digest computed
/// from the input bytes alone.
#[verifier::external_body]
fn keccak256(data: &[u8]) -> (r: Vec<u8>)
    ensures
        r@ == keccak_of(data@),
        r@.len() == 32,
{
    tiny_keccak::keccak256(data).to_vec()
}

/// The four big-endian bytes of a `u32`.
pub open spec fn spec_u32_bytes(x: u32) -> Seq<u8> {
    seq![(x >> 24) as u8, (x >> 16) as u8, (x >> 8) as u8, x as u8]
}

/// The sixteen big-endian bytes of a `u128`.
pub open spec fn spec_u128_bytes(x: u128) -> Seq<u8> {
    seq![
        (x >> 120) as u8,
        (x >> 112) as u8,
        (x >> 104) as u8,
        (x >> 96) as u8,
        (x >> 88) as u8,
        (x >> 80) as u8,
        (x >> 72) as u8,
        (x >> 64) as u8,
        (x >> 56) as u8,
        (x >> 48) as u8,
        (x >> 40) as u8,
        (x >> 32) as u8,
        (x >> 24) as u8,
        (x >> 16) as u8,
        (x >> 8) as u8,
        x as u8,
    ]
}

/// The canonical encoding of a transaction: a kind tag followed by the
/// fields in fixed order and fixed width.  The `fast` flag of a withdrawal
/// is a server-side processing option and is not part of the encoding.
pub open spec fn spec_tx_bytes(tx: Tx) -> Seq<u8> {
    match tx {
        Tx::Transfer(t) => seq![1u8] + spec_u32_bytes(t.account_id) + t.from.0@ + t.to.0@
            + spec_u32_bytes(t.token) + spec_u128_bytes(t.amount) + spec_u128_bytes(t.fee)
            + spec_u32_bytes(t.nonce),
        Tx::Withdraw(t) => seq![2u8] + spec_u32_bytes(t.account_id) + t.from.0@ + t.to.0@
            + spec_u32_bytes(t.token) + spec_u128_bytes(t.amount) + spec_u128_bytes(t.fee)
            + spec_u32_bytes(t.nonce),
        Tx::ForcedExit(t) => seq![3u8] + spec_u32_bytes(t.initiator_account_id) + t.target.0@
            + spec_u32_bytes(t.token) + spec_u128_bytes(t.fee) + spec_u32_bytes(t.nonce),
        Tx::ChangePubKey(t) => seq![4u8] + spec_u32_bytes(t.account_id) + t.account.0@
            + t.new_pk_hash@ + spec_u32_bytes(t.fee_token) + spec_u128_bytes(t.fee)
            + spec_u32_bytes(t.nonce),
        Tx::Close(t) => seq![5u8] + t.account.0@ + spec_u32_bytes(t.nonce),
    }
}

/// Appends the four big-endian bytes of `x`.
fn push_u32(out: &mut Vec<u8>, x: u32)
    ensures
        final(out)@ == old(out)@ + spec_u32_bytes(x),
{
    out.push((x >> 24) as u8);
    out.push((x >> 16) as u8);
    out.push((x >> 8) as u8);
    out.push(x as u8);
    assert(out@ =~= old(out)@ + spec_u32_bytes(x));
}

/// Appends the sixteen big-endian bytes of `x`.
fn push_u128(out: &mut Vec<u8>, x: u128)
    ensures
        final(out)@ == old(out)@ + spec_u128_bytes(x),
{
    out.push((x >> 120) as u8);
    out.push((x >> 112) as u8);
    out.push((x >> 104) as u8);
    out.push((x >> 96) as u8);
    out.push((x >> 88) as u8);
    out.push((x >> 80) as u8);
    out.push((x >> 72) as u8);
    out.push((x >> 64) as u8);
    out.push((x >> 56) as u8);
    out.push((x >> 48) as u8);
    out.push((x >> 40) as u8);
    out.push((x >> 32) as u8);
    out.push((x >> 24) as u8);
    out.push((x >> 16) as u8);
    out.push((x >> 8) as u8);
    out.push(x as u8);
    assert(out@ =~= old(out)@ + spec_u128_bytes(x));
}

/// Appends the twenty bytes of an address.
fn push_address(out: &mut Vec<u8>, a: &Address)
    ensures
        final(out)@ == old(out)@ + a.0@,
{
    let mut i: usize = 0;
    while i < 20
        invariant
            i <= 20,
            a.0@.len() == 20,
            out@ == old(out)@ + a.0@.subrange(0, i as int),
        decreases 20 - i,
    {
        out.push(a.0[i]);
        assert(out@ =~= old(out)@ + a.0@.subrange(0, i + 1));
        i = i + 1;
    }
    assert(a.0@.subrange(0, 20) =~= a.0@);
}

/// Appends the twenty bytes of a public-key hash.
fn push_pk_hash(out: &mut Vec<u8>, h: &[u8; 20])
    ensures
        final(out)@ == old(out)@ + h@,
{
    let mut i: usize = 0;
    while i < 20
        invariant
            i <= 20,
            h@.len() == 20,
            out@ == old(out)@ + h@.subrange(0, i as int),
        decreases 20 - i,
    {
        out.push(h[i]);
        assert(out@ =~= old(out)@ + h@.subrange(0, i + 1));
        i = i + 1;
    }
    assert(h@.subrange(0, 20) =~= h@);
}

impl Tx {
    /// The canonical byte encoding of this transaction.
    pub fn get_bytes(&self) -> (r: Vec<u8>)
        ensures
            r@ == spec_tx_bytes(*self),
    {
        let mut out: Vec<u8> = Vec::new();
        match self {
            Tx::Transfer(t) => {
                out.push(1);
                push_u32(&mut out, t.account_id);
                push_address(&mut out, &t.from);
                push_address(&mut out, &t.to);
                push_u32(&mut out, t.token);
                push_u128(&mut out, t.amount);
                push_u128(&mut out, t.fee);
                push_u32(&mut out, t.nonce);
            },
            Tx::Withdraw(t) => {
                out.push(2);
                push_u32(&mut out, t.account_id);
                push_address(&mut out, &t.from);
                push_address(&mut out, &t.to);
                push_u32(&mut out, t.token);
                push_u128(&mut out, t.amount);
                push_u128(&mut out, t.fee);
                push_u32(&mut out, t.nonce);
            },
            Tx::ForcedExit(t) => {
                out.push(3);
                push_u32(&mut out, t.initiator_account_id);
                push_address(&mut out, &t.target);
                push_u32(&mut out, t.token);
                push_u128(&mut out, t.fee);
                push_u32(&mut out, t.nonce);
            },
            Tx::ChangePubKey(t) => {
                out.push(4);
                push_u32(&mut out, t.account_id);
                push_address(&mut out, &t.account);
                push_pk_hash(&mut out, &t.new_pk_hash);
                push_u32(&mut out, t.fee_token);
                push_u128(&mut out, t.fee);
                push_u32(&mut out, t.nonce);
            },
            Tx::Close(t) => {
                out.push(5);
                push_address(&mut out, &t.account);
                push_u32(&mut out, t.nonce);
            },
        }
        assert(out@ =~= spec_tx_bytes(*self));
        out
    }

    /// The content-addressed hash of this transaction: the digest of its
    /// canonical encoding.  The encoding ignores a withdrawal's server-set
    /// `fast` flag, so the hash does too.
    pub fn hash(&self) -> (r: TxHash)
        ensures
            r.bytes@ == keccak_of(spec_tx_bytes(*self)),
            r.bytes@.len() == 32,
    {
        let bytes = self.get_bytes();
        TxHash { bytes: keccak256(bytes.as_slice()) }
    }
}

/// The concatenation, in order, of the canonical encodings of a batch's
/// member transactions.
pub open spec fn spec_batch_bytes(txs: Seq<SignedTx>) -> Seq<u8>
    decreases txs.len(),
{
    if txs.len() == 0 {
        Seq::empty()
    } else {
        spec_batch_bytes(txs.drop_last()) + spec_tx_bytes(txs.last().tx)
    }
}

/// The message whose signature covers a whole batch: the digest of the
/// concatenation of every member's canonical encoding, in order.
pub fn get_batch_sign_message(txs: &Vec<SignedTx>) -> (r: Vec<u8>)
    ensures
        r@ == keccak_of(spec_batch_bytes(txs@)),
        r@.len() == 32,
{
    let mut data: Vec<u8> = Vec::new();
    let n = txs.len();
    let mut i: usize = 0;
    assert(spec_batch_bytes(txs@.subrange(0, 0)) =~= data@);
    while i < n
        invariant
            i <= n == txs@.len(),
            data@ == spec_batch_bytes(txs@.subrange(0, i as int)),
        decreases n - i,
    {
        let mut member = txs[i].tx.get_bytes();
        let mut j: usize = 0;
        let m = member.len();
        while j < m
            invariant
                j <= m == member@.len(),
                data@ == spec_batch_bytes(txs@.subrange(0, i as int)) + member@.subrange(
                    0,
                    j as int,
                ),
            decreases m - j,
        {
            data.push(member[j]);
            assert(data@ =~= spec_batch_bytes(txs@.subrange(0, i as int)) + member@.subrange(
                0,
                j + 1,
            ));
            j = j + 1;
        }
        proof {
            assert(member@.subrange(0, m as int) =~= member@);
            assert(txs@.subrange(0, i + 1).drop_last() =~= txs@.subrange(0, i as int));
            assert(txs@.subrange(0, i + 1).last() == txs@[i as int]);
        }
        i = i + 1;
    }
    assert(txs@.subrange(0, n as int) =~= txs@);
    keccak256(data.as_slice())
}

/// The batch-signing digest is a function of the member transactions and
/// their order alone: two batches whose members carry the same transactions
/// in the same order produce the same digest, whichever process builds them
/// and whatever signature data their members carry.
pub proof fn lemma_batch_sign_message_deterministic(a: Seq<SignedTx>, b: Seq<SignedTx>)
    requires
        a.len() == b.len(),
        forall|i: int| 0 <= i < a.len() ==> a[i].tx == b[i].tx,
    ensures
        spec_batch_bytes(a) == spec_batch_bytes(b),
        keccak_of(spec_batch_bytes(a)) == keccak_of(spec_batch_bytes(b)),
    decreases a.len(),
{
    if a.len() > 0 {
        lemma_batch_sign_message_deterministic(a.drop_last(), b.drop_last());
        assert(a[a.len() - 1].tx == b[b.len() - 1].tx);
    }
}

} // verus!
