//! Batch admission: batch-wide policy gates, fee aggregation in a reference
//! currency, and aggregate-signature verification.
//!
//! A batch is evaluated as a unit: any account-close member rejects it in
//! full, a member with a nonzero declared fee must pay it in a
//! ticker-approved token, and the USD value of all declared fees together,
//! scaled up by the drift policy, must cover the required fee.

use vstd::prelude::*;
use vstd::arithmetic::mul::{lemma_mul_is_commutative, lemma_mul_nonnegative};
use crate::admission::{
    spec_is_legacy_token, spec_legacy_message_symbol, spec_needs_sign_message,
    spec_scaled_fee_short, spec_sign_message, spec_verify_outcome, glm_force_tx_message_to_sign,
    tx_message_to_sign, TxSender,
};
use crate::codec::{get_batch_sign_message, keccak_of, spec_batch_bytes, spec_tx_bytes};
use vstd::arithmetic::power::pow;
use crate::decimal::{
    cent_scaled, dec_lt, lemma_mul_le_iff, lemma_pow10_adds, lemma_pow10_pos, pow10, pow10_u128,
    scale_user_fee_up, UDecimal, MAX_SCALE,
};
use crate::error::{SubmitError, TxAddError};
use crate::types::{
    clone_bytes, Address, EthSignData, SignedTx, Token, Tx, TxEthSignature, TxFeeType, TxHash,
};

verus! {

/// The ticker's per-member answers: whether the member's fee token may pay
/// fees, and the token's USD unit price.
#[derive(Debug, Clone, Copy)]
pub struct FeeQuote {
    pub allowed: bool,
    pub price: UDecimal,
}

/// The verifier's verdicts for one member on the member-by-member
/// verification path.
#[derive(Debug, Clone, Copy)]
pub struct MemberVerify {
    pub first: Result<(), TxAddError>,
    pub legacy: Result<(), TxAddError>,
}

/// The USD value (as a fixed-point integer, times `10^MAX_SCALE`) of the
/// declared fees of a batch: each member with fee semantics and a nonzero
/// declared fee contributes its fee times its token's unit price.
pub open spec fn spec_batch_provided_usd(txs: Seq<Tx>, quotes: Seq<FeeQuote>) -> int
    decreases txs.len(),
{
    if txs.len() == 0 {
        0
    } else {
        spec_batch_provided_usd(txs.drop_last(), quotes.drop_last()) + (
        match txs.last().spec_fee_info() {
            Some(fi) => if fi.fee > 0 {
                fi.fee * quotes[txs.len() - 1].price.scaled()
            } else {
                0
            },
            None => 0,
        })
    }
}

/// Every term of the batch USD sum is non-negative, so the sum is too.
proof fn lemma_usd_nonneg(txs: Seq<Tx>, quotes: Seq<FeeQuote>)
    ensures
        spec_batch_provided_usd(txs, quotes) >= 0,
    decreases txs.len(),
{
    if txs.len() > 0 {
        lemma_usd_nonneg(txs.drop_last(), quotes.drop_last());
        match txs.last().spec_fee_info() {
            Some(fi) => {
                lemma_pow10_pos((MAX_SCALE - quotes[txs.len() - 1].price.scale) as nat);
                lemma_mul_nonnegative(
                    quotes[txs.len() - 1].price.mantissa as int,
                    pow10((MAX_SCALE - quotes[txs.len() - 1].price.scale) as nat),
                );
                lemma_mul_nonnegative(
                    fi.fee as int,
                    quotes[txs.len() - 1].price.scaled(),
                );
            },
            None => {},
        }
    }
}

/// A prefix of the batch USD sum never exceeds the whole.
proof fn lemma_usd_prefix_le(txs: Seq<Tx>, quotes: Seq<FeeQuote>, k: int)
    requires
        0 <= k <= txs.len(),
        txs.len() == quotes.len(),
    ensures
        spec_batch_provided_usd(txs.subrange(0, k), quotes.subrange(0, k))
            <= spec_batch_provided_usd(txs, quotes),
    decreases txs.len() - k,
{
    if k == txs.len() {
        assert(txs.subrange(0, k) =~= txs);
        assert(quotes.subrange(0, k) =~= quotes);
    } else {
        lemma_usd_prefix_le(txs, quotes, k + 1);
        let ptxs = txs.subrange(0, k + 1);
        let pquotes = quotes.subrange(0, k + 1);
        assert(ptxs.drop_last() =~= txs.subrange(0, k));
        assert(pquotes.drop_last() =~= quotes.subrange(0, k));
        assert(ptxs.last() == txs[k]);
        match txs[k].spec_fee_info() {
            Some(fi) => {
                lemma_pow10_pos((MAX_SCALE - quotes[k].price.scale) as nat);
                lemma_mul_nonnegative(
                    quotes[k].price.mantissa as int,
                    pow10((MAX_SCALE - quotes[k].price.scale) as nat),
                );
                lemma_mul_nonnegative(fi.fee as int, quotes[k].price.scaled());
            },
            None => {},
        }
    }
}

/// One member's USD fee contribution, as a mantissa at two fewer fractional
/// digits than the fixed-point view (so that the result times 100 is the
/// exact fixed-point value).
fn usd_term(fee: u128, price: &UDecimal) -> (r: u128)
    requires
        price.wf(),
        price.scale + 2 <= MAX_SCALE,
        fee * price.scaled() <= (u128::MAX / 105) * 100,
    ensures
        r * 100 == fee * price.scaled(),
        r <= u128::MAX / 105,
{
    let p = pow10_u128(MAX_SCALE - 2 - price.scale);
    proof {
        lemma_pow10_pos((MAX_SCALE - 2 - price.scale) as nat);
        lemma_pow10_adds((MAX_SCALE - 2 - price.scale) as nat, 2nat);
        assert(pow10(2nat) == 100) by {
            reveal_with_fuel(pow, 3);
        }
        assert(pow10((MAX_SCALE - price.scale) as nat) == p * 100);
        assert(fee * price.scaled() == ((fee as int) * (price.mantissa as int) * (p as int)) * 100)
            by (nonlinear_arith)
            requires
                price.scaled() == (price.mantissa as int) * ((p as int) * 100),
        ;
        lemma_mul_le_iff(
            (fee as int) * (price.mantissa as int) * (p as int),
            (u128::MAX / 105) as int,
            100,
        );
        assert((fee as int) * (price.mantissa as int) <= (fee as int) * (price.mantissa as int) * (
        p as int)) by (nonlinear_arith)
            requires
                (p as int) >= 1,
                (fee as int) >= 0,
                (price.mantissa as int) >= 0,
        ;
    }
    let m1 = match fee.checked_mul(price.mantissa) {
        Some(m) => m,
        None => unreached(),
    };
    let m2 = match m1.checked_mul(p) {
        Some(m) => m,
        None => unreached(),
    };
    m2
}

/// The (fee kind, address) pairs that need fee coverage: one per member
/// with fee semantics and a nonzero declared fee, in member order.
pub open spec fn spec_batch_fee_types(txs: Seq<Tx>) -> Seq<(TxFeeType, Address)>
    decreases txs.len(),
{
    if txs.len() == 0 {
        Seq::empty()
    } else {
        let rest = spec_batch_fee_types(txs.drop_last());
        match txs.last().spec_fee_info() {
            Some(fi) => if fi.fee > 0 {
                rest.push((fi.fee_type, fi.address))
            } else {
                rest
            },
            None => rest,
        }
    }
}

/// Collects the (fee kind, address) pairs of the members that need fee
/// coverage, for the aggregate fee quote.
pub fn batch_fee_types(txs: &Vec<(Tx, Option<TxEthSignature>)>) -> (r: Vec<(TxFeeType, Address)>)
    ensures
        r@ == spec_batch_fee_types(spec_member_txs(txs@)),
{
    let mut out: Vec<(TxFeeType, Address)> = Vec::new();
    let n = txs.len();
    let mut i: usize = 0;
    assert(spec_member_txs(txs@).subrange(0, 0) =~= Seq::<Tx>::empty());
    assert(out@ =~= spec_batch_fee_types(spec_member_txs(txs@).subrange(0, 0)));
    while i < n
        invariant
            i <= n == txs@.len(),
            out@ == spec_batch_fee_types(spec_member_txs(txs@).subrange(0, i as int)),
        decreases n - i,
    {
        proof {
            let m = spec_member_txs(txs@);
            assert(m.subrange(0, i + 1).drop_last() =~= m.subrange(0, i as int));
            assert(m.subrange(0, i + 1).last() == m[i as int]);
            assert(m[i as int] == txs@[i as int].0);
        }
        match txs[i].0.get_fee_info() {
            Some(fi) => {
                if fi.fee > 0 {
                    out.push((fi.fee_type, fi.address));
                    assert(out@ =~= spec_batch_fee_types(
                        spec_member_txs(txs@).subrange(0, i + 1),
                    ));
                }
            },
            None => {},
        }
        assert(out@ =~= spec_batch_fee_types(spec_member_txs(txs@).subrange(0, i + 1)));
        i = i + 1;
    }
    assert(spec_member_txs(txs@).subrange(0, n as int) =~= spec_member_txs(txs@));
    out
}

/// The member transactions of a batch, in order.
pub open spec fn spec_member_txs(members: Seq<(Tx, Option<TxEthSignature>)>) -> Seq<Tx> {
    members.map(|i: int, p: (Tx, Option<TxEthSignature>)| p.0)
}

/// Whether some member is an account-close transaction.
pub open spec fn spec_any_close(txs: Seq<Tx>) -> bool {
    exists|i: int| 0 <= i < txs.len() && txs[i].spec_is_close()
}

/// Whether some member declares a nonzero fee in a token the ticker does
/// not approve for fees.  A zero-fee member is exempt whatever its token:
/// non-popular tokens may ride in a batch as long as they contribute no
/// fee.
pub open spec fn spec_inappropriate_member(txs: Seq<Tx>, quotes: Seq<FeeQuote>) -> bool {
    exists|i: int|
        0 <= i < txs.len() && (#[trigger] txs[i].spec_fee_info() matches Some(fi) && fi.fee > 0
            && !(#[trigger] quotes[i]).allowed)
}

/// Walks the members once: rejects the first nonzero-fee member whose
/// token the ticker refuses, and otherwise accumulates the USD value of
/// every declared fee.  The result mantissa times 100 is the exact
/// fixed-point USD sum.
pub fn accumulate_batch_usd_fee(txs: &Vec<(Tx, Option<TxEthSignature>)>, quotes: &Vec<FeeQuote>)
    -> (r: Result<UDecimal, SubmitError>)
    requires
        txs@.len() == quotes@.len(),
        forall|i: int|
            0 <= i < quotes@.len() ==> (#[trigger] quotes@[i]).price.wf() && quotes@[i].price.scale
                + 2 <= MAX_SCALE,
        spec_batch_provided_usd(spec_member_txs(txs@), quotes@) <= (u128::MAX / 105) * 100,
    ensures
        r is Err <==> spec_inappropriate_member(spec_member_txs(txs@), quotes@),
        r matches Err(e) ==> e == SubmitError::InappropriateFeeToken,
        r matches Ok(acc) ==> {
            &&& acc.wf()
            &&& acc.scale + 2 <= MAX_SCALE
            &&& acc.mantissa <= u128::MAX / 105
            &&& acc.scaled() == spec_batch_provided_usd(spec_member_txs(txs@), quotes@)
        },
{
    let ghost m = spec_member_txs(txs@);
    let ghost total = spec_batch_provided_usd(m, quotes@);
    let mut acc: u128 = 0;
    let n = txs.len();
    let mut i: usize = 0;
    assert(m.subrange(0, 0) =~= Seq::<Tx>::empty());
    assert(quotes@.subrange(0, 0) =~= Seq::<FeeQuote>::empty());
    while i < n
        invariant
            i <= n == txs@.len() == quotes@.len(),
            m == spec_member_txs(txs@),
            total == spec_batch_provided_usd(m, quotes@),
            total <= (u128::MAX / 105) * 100,
            forall|i: int|
                0 <= i < quotes@.len() ==> (#[trigger] quotes@[i]).price.wf()
                    && quotes@[i].price.scale + 2 <= MAX_SCALE,
            acc * 100 == spec_batch_provided_usd(m.subrange(0, i as int), quotes@.subrange(0, i as int)),
            acc <= u128::MAX / 105,
            forall|j: int|
                0 <= j < i ==> !(#[trigger] m[j].spec_fee_info() matches Some(fi) && fi.fee > 0
                    && !quotes@[j].allowed),
        decreases n - i,
    {
        proof {
            assert(m.subrange(0, i + 1).drop_last() =~= m.subrange(0, i as int));
            assert(quotes@.subrange(0, i + 1).drop_last() =~= quotes@.subrange(0, i as int));
            assert(m.subrange(0, i + 1).last() == m[i as int]);
            assert(m[i as int] == txs@[i as int].0);
            lemma_usd_prefix_le(m, quotes@, i + 1);
            lemma_usd_nonneg(m.subrange(0, i as int), quotes@.subrange(0, i as int));
        }
        match txs[i].0.get_fee_info() {
            Some(fi) => {
                if fi.fee > 0 {
                    if !quotes[i].allowed {
                        return Err(SubmitError::InappropriateFeeToken);
                    }
                    proof {
                        // This member's term fits: the prefix sum is
                        // non-negative and the whole sum is bounded.
                        assert(spec_batch_provided_usd(
                            m.subrange(0, i + 1),
                            quotes@.subrange(0, i + 1),
                        ) == acc * 100 + fi.fee * quotes@[i as int].price.scaled());
                        lemma_pow10_pos((MAX_SCALE - quotes@[i as int].price.scale) as nat);
                        lemma_mul_nonnegative(
                            quotes@[i as int].price.mantissa as int,
                            pow10((MAX_SCALE - quotes@[i as int].price.scale) as nat),
                        );
                        lemma_mul_nonnegative(
                            fi.fee as int,
                            quotes@[i as int].price.scaled(),
                        );
                    }
                    let term = usd_term(fi.fee, &quotes[i].price);
                    proof {
                        lemma_mul_le_iff(
                            acc as int + term as int,
                            (u128::MAX / 105) as int,
                            100,
                        );
                    }
                    acc = acc + term;
                }
            },
            None => {},
        }
        assert(acc * 100 == spec_batch_provided_usd(
            m.subrange(0, i + 1),
            quotes@.subrange(0, i + 1),
        ));
        i = i + 1;
    }
    assert(m.subrange(0, n as int) =~= m);
    assert(quotes@.subrange(0, n as int) =~= quotes@);
    proof {
        lemma_pow10_adds((MAX_SCALE - 2) as nat, 2nat);
        assert(pow10(2nat) == 100) by {
            reveal_with_fuel(pow, 3);
        }
        lemma_mul_is_commutative(acc as int, 100);
    }
    let r = UDecimal { mantissa: acc, scale: MAX_SCALE - 2 };
    assert(r.scaled() == acc * pow10(2nat));
    Ok(r)
}

/// Whether some member that needs a signing message lacks a resolved token.
pub open spec fn spec_missing_token(txs: Seq<Tx>, tokens: Seq<Option<Token>>) -> bool {
    exists|i: int|
        0 <= i < txs.len() && spec_needs_sign_message(#[trigger] txs[i]) && tokens[i] is None
}

/// The first member at or after position `i` that carries a signing
/// message, or the length if none does.
pub open spec fn spec_first_msg_member(txs: Seq<Tx>, i: int) -> int
    decreases txs.len() - i,
{
    if i < 0 || i >= txs.len() {
        txs.len() as int
    } else if spec_needs_sign_message(txs[i]) {
        i
    } else {
        spec_first_msg_member(txs, i + 1)
    }
}

/// The token the legacy fallback is judged by: that of the first member
/// carrying a signing message.
pub open spec fn spec_batch_token(txs: Seq<Tx>, tokens: Seq<Option<Token>>) -> Option<Token> {
    let j = spec_first_msg_member(txs, 0);
    if j < txs.len() {
        tokens[j]
    } else {
        None
    }
}

/// Whether the batch's legacy fallback applies: the first message-carrying
/// member resolved to the deprecated token.
pub open spec fn spec_batch_legacy(txs: Seq<Tx>, tokens: Seq<Option<Token>>) -> bool {
    spec_batch_token(txs, tokens) matches Some(t) && spec_is_legacy_token(t)
}

/// Pins down `spec_first_msg_member` from what a forward walk saw.
proof fn lemma_first_msg_member_is(txs: Seq<Tx>, i: int, k: int)
    requires
        0 <= i <= k <= txs.len(),
        forall|j: int| i <= j < k ==> !spec_needs_sign_message(#[trigger] txs[j]),
        k < txs.len() ==> spec_needs_sign_message(txs[k]),
    ensures
        spec_first_msg_member(txs, i) == k,
    decreases k - i,
{
    if i < k {
        lemma_first_msg_member_is(txs, i + 1, k);
    }
}

/// Copies a token, field for field.
fn clone_token(t: &Token) -> (r: Token)
    ensures
        r.id == t.id,
        r.symbol@ == t.symbol@,
        r.decimals == t.decimals,
{
    Token { id: t.id, symbol: clone_bytes(&t.symbol), decimals: t.decimals }
}

/// Copies a member's optional signature, preserving its bytes.
fn clone_signature(s: &Option<TxEthSignature>) -> (r: Option<TxEthSignature>)
    ensures
        r is Some <==> s is Some,
        r matches Some(sig) ==> (s matches Some(orig) && sig.bytes@ == orig.bytes@),
{
    match s {
        Some(sig) => Some(TxEthSignature { bytes: clone_bytes(&sig.bytes) }),
        None => None,
    }
}

/// Pairs each member with its signature data: a member carries sign data
/// exactly when it supplied its own signature and its kind carries a
/// message.
fn build_signed_batch(
    batch: &Vec<(Tx, Option<TxEthSignature>)>,
    messages: &Vec<Option<Vec<u8>>>,
) -> (r: Vec<SignedTx>)
    requires
        batch@.len() == messages@.len(),
    ensures
        r@.len() == batch@.len(),
        forall|i: int| 0 <= i < batch@.len() ==> (#[trigger] r@[i]).tx == batch@[i].0,
        forall|i: int|
            0 <= i < batch@.len() ==> (((#[trigger] r@[i]).eth_sign_data is Some) <==> (
            batch@[i].1 is Some && messages@[i] is Some)),
        forall|i: int|
            0 <= i < batch@.len() ==> ((#[trigger] r@[i]).eth_sign_data matches Some(sd) ==> {
                &&& batch@[i].1 matches Some(orig) && sd.signature.bytes@ == orig.bytes@
                &&& messages@[i] matches Some(msg) && sd.message@ == msg@
            }),
{
    let mut out: Vec<SignedTx> = Vec::new();
    let n = batch.len();
    let mut i: usize = 0;
    while i < n
        invariant
            i <= n == batch@.len() == messages@.len(),
            out@.len() == i,
            forall|j: int| 0 <= j < i ==> (#[trigger] out@[j]).tx == batch@[j].0,
            forall|j: int|
                0 <= j < i ==> (((#[trigger] out@[j]).eth_sign_data is Some) <==> (batch@[j].1
                    is Some && messages@[j] is Some)),
            forall|j: int|
                0 <= j < i ==> ((#[trigger] out@[j]).eth_sign_data matches Some(sd) ==> {
                    &&& batch@[j].1 matches Some(orig) && sd.signature.bytes@ == orig.bytes@
                    &&& messages@[j] matches Some(msg) && sd.message@ == msg@
                }),
        decreases n - i,
    {
        let sign_data = match (&batch[i].1, &messages[i]) {
            (Some(sig), Some(msg)) => Some(
                EthSignData {
                    signature: TxEthSignature { bytes: clone_bytes(&sig.bytes) },
                    message: clone_bytes(msg),
                },
            ),
            _ => None,
        };
        out.push(SignedTx { tx: batch[i].0, eth_sign_data: sign_data });
        i = i + 1;
    }
    out
}

impl TxSender {
    /// Resolves each member's signing message, builds the signed batch, and
    /// judges the aggregate signature: the verifier's verdict covers the
    /// digest of the members' canonical encodings in order, and the legacy
    /// fallback applies when the first message-carrying member resolved to
    /// the deprecated token.  If the retry fails too, the original error is
    /// returned.
    pub fn glm_verify_txs_batch_info(
        &self,
        batch: &Vec<(Tx, Option<TxEthSignature>)>,
        signature: TxEthSignature,
        tokens: &Vec<Option<Token>>,
        first_verify: Result<(), TxAddError>,
        legacy_verify: Result<(), TxAddError>,
    ) -> (r: Result<(Vec<SignedTx>, EthSignData), SubmitError>)
        requires
            batch@.len() == tokens@.len(),
        ensures
            (r matches Err(e) && e matches SubmitError::Other(_)) <==> spec_missing_token(
                spec_member_txs(batch@),
                tokens@,
            ),
            !spec_missing_token(spec_member_txs(batch@), tokens@) ==> (match spec_verify_outcome(
                spec_batch_legacy(spec_member_txs(batch@), tokens@),
                first_verify,
                legacy_verify,
            ) {
                Err(e) => r == Result::<(Vec<SignedTx>, EthSignData), SubmitError>::Err(
                    SubmitError::TxAdd(e),
                ),
                Ok(_) => r matches Ok(p) && {
                    &&& p.0@.len() == batch@.len()
                    &&& (forall|i: int|
                        0 <= i < batch@.len() ==> (#[trigger] p.0@[i]).tx == batch@[i].0)
                    &&& (forall|i: int|
                        0 <= i < batch@.len() ==> (((#[trigger] p.0@[i]).eth_sign_data is Some)
                            <==> (batch@[i].1 is Some && spec_needs_sign_message(batch@[i].0))))
                    &&& (forall|i: int|
                        0 <= i < batch@.len() ==> ((#[trigger] p.0@[i]).eth_sign_data matches Some(
                            sd,
                        ) ==> {
                            // each member's sign data carries its own
                            // signature and the exact message that was
                            // verified: the token's live message on the
                            // first verdict, the legacy template on the
                            // retry
                            &&& batch@[i].1 matches Some(orig) && sd.signature.bytes@
                                == orig.bytes@
                            &&& sd.message@ == (if first_verify is Ok {
                                spec_sign_message(
                                    batch@[i].0,
                                    tokens@[i].unwrap().symbol@,
                                    tokens@[i].unwrap().decimals,
                                )
                            } else {
                                spec_sign_message(
                                    batch@[i].0,
                                    spec_legacy_message_symbol(),
                                    spec_batch_token(
                                        spec_member_txs(batch@),
                                        tokens@,
                                    ).unwrap().decimals,
                                )
                            })
                        }))
                    &&& p.1.signature.bytes@ == signature.bytes@
                    &&& p.1.message@ == keccak_of(spec_batch_bytes(p.0@))
                },
            }),
    {
        let ghost m = spec_member_txs(batch@);
        let n = batch.len();
        // Resolve every member's signing message against its token, and
        // remember the first message-carrying member's token: the legacy
        // fallback is judged by it.
        let mut messages: Vec<Option<Vec<u8>>> = Vec::new();
        let mut batch_token: Option<Token> = None;
        let ghost mut first_msg: int = n as int;
        let mut i: usize = 0;
        while i < n
            invariant
                i <= n == batch@.len() == tokens@.len(),
                m == spec_member_txs(batch@),
                messages@.len() == i,
                forall|j: int|
                    0 <= j < i ==> ((#[trigger] messages@[j]) is Some <==> spec_needs_sign_message(
                        m[j],
                    )),
                forall|j: int|
                    0 <= j < i ==> (spec_needs_sign_message(#[trigger] m[j]) ==> tokens@[j]
                        is Some),
                forall|j: int|
                    0 <= j < i ==> ((#[trigger] messages@[j]) matches Some(msg) ==> msg@
                        == spec_sign_message(
                        m[j],
                        tokens@[j].unwrap().symbol@,
                        tokens@[j].unwrap().decimals,
                    )),
                0 <= first_msg <= n,
                first_msg < n ==> {
                    &&& first_msg < i
                    &&& spec_needs_sign_message(m[first_msg])
                    &&& (forall|j: int|
                        0 <= j < first_msg ==> !spec_needs_sign_message(#[trigger] m[j]))
                    &&& tokens@[first_msg] is Some
                    &&& batch_token matches Some(bt) && bt.symbol@
                        == tokens@[first_msg].unwrap().symbol@ && bt.decimals
                        == tokens@[first_msg].unwrap().decimals
                },
                first_msg == n ==> (batch_token is None && (forall|j: int|
                    0 <= j < i ==> !spec_needs_sign_message(#[trigger] m[j]))),
            decreases n - i,
        {
            proof {
                assert(m[i as int] == batch@[i as int].0);
            }
            let msg = match tx_message_to_sign(&batch[i].0, &tokens[i]) {
                Ok(msg) => msg,
                Err(e) => {
                    proof {
                        assert(spec_needs_sign_message(m[i as int]) && tokens@[i as int] is None);
                    }
                    return Err(e);
                },
            };
            if msg.is_some() && batch_token.is_none() {
                let tok = match &tokens[i] {
                    Some(t) => clone_token(t),
                    None => unreached(),
                };
                batch_token = Some(tok);
                proof {
                    first_msg = i as int;
                }
            }
            messages.push(msg);
            i = i + 1;
        }
        proof {
            assert(!spec_missing_token(m, tokens@));
            lemma_first_msg_member_is(m, 0, first_msg);
        }
        match first_verify {
            Ok(_) => {
                let signed = build_signed_batch(batch, &messages);
                let message = get_batch_sign_message(&signed);
                Ok((signed, EthSignData { signature, message }))
            },
            Err(e) => {
                let legacy_applies = match &batch_token {
                    Some(bt) => {
                        let gnt = crate::admission::legacy_symbol();
                        crate::types::bytes_eq(&bt.symbol, &gnt)
                    },
                    None => false,
                };
                if legacy_applies {
                    match legacy_verify {
                        Ok(_) => {
                            // Retry against the fixed legacy message
                            // template: every member message is rebuilt with
                            // the deprecated symbol and the batch token's
                            // decimals.
                            let decimals = match &batch_token {
                                Some(bt) => bt.decimals,
                                None => unreached(),
                            };
                            let mut legacy_messages: Vec<Option<Vec<u8>>> = Vec::new();
                            let mut k: usize = 0;
                            while k < n
                                invariant
                                    k <= n == batch@.len(),
                                    m == spec_member_txs(batch@),
                                    legacy_messages@.len() == k,
                                    forall|j: int|
                                        0 <= j < k ==> ((#[trigger] legacy_messages@[j]) is Some
                                            <==> spec_needs_sign_message(m[j])),
                                    forall|j: int|
                                        0 <= j < k ==> ((#[trigger] legacy_messages@[j]) matches
                                            Some(lm) ==> lm@ == spec_sign_message(
                                            m[j],
                                            spec_legacy_message_symbol(),
                                            decimals,
                                        )),
                                decreases n - k,
                            {
                                proof {
                                    assert(m[k as int] == batch@[k as int].0);
                                }
                                legacy_messages.push(
                                    glm_force_tx_message_to_sign(&batch[k].0, decimals),
                                );
                                k = k + 1;
                            }
                            let signed = build_signed_batch(batch, &legacy_messages);
                            let message = get_batch_sign_message(&signed);
                            Ok((signed, EthSignData { signature, message }))
                        },
                        Err(_) => Err(SubmitError::TxAdd(e)),
                    }
                } else {
                    Err(SubmitError::TxAdd(e))
                }
            },
        }
    }
}

/// Whether one member passes signature verification on the member-by-member
/// path.
pub open spec fn spec_member_ok(
    tx: Tx,
    sig: Option<TxEthSignature>,
    token: Option<Token>,
    mv: MemberVerify,
) -> bool {
    if spec_needs_sign_message(tx) {
        &&& token is Some
        &&& sig is Some
        &&& spec_verify_outcome(spec_is_legacy_token(token.unwrap()), mv.first, mv.legacy) is Ok
    } else {
        mv.first is Ok
    }
}

/// Whether every member passes on the member-by-member path.
pub open spec fn spec_all_members_ok(
    members: Seq<(Tx, Option<TxEthSignature>)>,
    tokens: Seq<Option<Token>>,
    mvs: Seq<MemberVerify>,
) -> bool {
    forall|i: int|
        0 <= i < members.len() ==> spec_member_ok(
            (#[trigger] members[i]).0,
            members[i].1,
            tokens[i],
            mvs[i],
        )
}

/// Whether the batch clears signature verification, on whichever path the
/// presence of an aggregate signature selects.
pub open spec fn spec_batch_verification_ok(
    members: Seq<(Tx, Option<TxEthSignature>)>,
    has_aggregate: bool,
    tokens: Seq<Option<Token>>,
    mvs: Seq<MemberVerify>,
    first: Result<(), TxAddError>,
    legacy: Result<(), TxAddError>,
) -> bool {
    if has_aggregate {
        &&& !spec_missing_token(spec_member_txs(members), tokens)
        &&& spec_verify_outcome(
            spec_batch_legacy(spec_member_txs(members), tokens),
            first,
            legacy,
        ) is Ok
    } else {
        spec_all_members_ok(members, tokens, mvs)
    }
}

/// Whether the legacy retry should be attempted for a batch: the first
/// verdict failed and the first message-carrying member resolved to the
/// deprecated token.
#[verifier::loop_isolation(false)]
pub fn batch_legacy_retry_applies(
    batch: &Vec<(Tx, Option<TxEthSignature>)>,
    tokens: &Vec<Option<Token>>,
    first_failed: bool,
) -> (r: bool)
    requires
        batch@.len() == tokens@.len(),
    ensures
        r == (first_failed && spec_batch_legacy(spec_member_txs(batch@), tokens@)),
{
    let ghost m = spec_member_txs(batch@);
    if !first_failed {
        return false;
    }
    let n = batch.len();
    let mut i: usize = 0;
    while i < n
        invariant
            i <= n,
            forall|j: int| 0 <= j < i ==> !spec_needs_sign_message(#[trigger] m[j]),
        decreases n - i,
    {
        proof {
            assert(m[i as int] == batch@[i as int].0);
        }
        let needs = match &batch[i].0 {
            Tx::Transfer(_) => true,
            Tx::Withdraw(_) => true,
            _ => false,
        };
        if needs {
            proof {
                lemma_first_msg_member_is(m, 0, i as int);
            }
            return match &tokens[i] {
                Some(t) => {
                    let gnt = crate::admission::legacy_symbol();
                    crate::types::bytes_eq(&t.symbol, &gnt)
                },
                None => false,
            };
        }
        i = i + 1;
    }
    proof {
        lemma_first_msg_member_is(m, 0, n as int);
    }
    false
}

/// The batch-wide membership gates, run before any collaborator is
/// consulted: an empty batch is rejected, and any account-close member
/// rejects the batch in full, so no partial forwarding can occur.
#[verifier::loop_isolation(false)]
pub fn check_batch_members(txs: &Vec<(Tx, Option<TxEthSignature>)>) -> (r: Result<
    (),
    SubmitError,
>)
    ensures
        txs@.len() == 0 ==> r == Result::<(), SubmitError>::Err(
            SubmitError::TxAdd(TxAddError::EmptyBatch),
        ),
        txs@.len() > 0 ==> ((r matches Err(SubmitError::AccountCloseDisabled)) <==> spec_any_close(
            spec_member_txs(txs@),
        )),
        r is Ok <==> (txs@.len() > 0 && !spec_any_close(spec_member_txs(txs@))),
{
    let ghost mtxs = spec_member_txs(txs@);
    let n = txs.len();
    if n == 0 {
        return Err(SubmitError::TxAdd(TxAddError::EmptyBatch));
    }
    let mut i: usize = 0;
    while i < n
        invariant
            i <= n == txs@.len(),
            mtxs == spec_member_txs(txs@),
            forall|j: int| 0 <= j < i ==> !(#[trigger] mtxs[j]).spec_is_close(),
        decreases n - i,
    {
        proof {
            assert(mtxs[i as int] == txs@[i as int].0);
        }
        if txs[i].0.is_close() {
            return Err(SubmitError::AccountCloseDisabled);
        }
        i = i + 1;
    }
    Ok(())
}

/// Fee enforcement for a batch, against the ticker's answers: a nonzero
/// declared fee must ride in an approved token, and the USD value of all
/// declared fees, scaled up by the drift policy, must cover the required
/// fee.  Exact coverage is accepted; only a strict shortfall rejects.
pub fn check_batch_fee(
    txs: &Vec<(Tx, Option<TxEthSignature>)>,
    member_quotes: &Vec<FeeQuote>,
    required_fee: u128,
    eth_price: UDecimal,
) -> (r: Result<(), SubmitError>)
    requires
        txs@.len() == member_quotes@.len(),
        forall|i: int|
            0 <= i < member_quotes@.len() ==> (#[trigger] member_quotes@[i]).price.wf()
                && member_quotes@[i].price.scale + 2 <= MAX_SCALE,
        spec_batch_provided_usd(spec_member_txs(txs@), member_quotes@) <= (u128::MAX / 105) * 100,
        eth_price.wf(),
        required_fee * eth_price.mantissa <= u128::MAX,
    ensures
        ({
            let provided_usd = spec_batch_provided_usd(spec_member_txs(txs@), member_quotes@);
            let required_usd = required_fee * eth_price.scaled();
            &&& ((r matches Err(SubmitError::InappropriateFeeToken)) <==> spec_inappropriate_member(
                spec_member_txs(txs@),
                member_quotes@,
            ))
            &&& (!spec_inappropriate_member(spec_member_txs(txs@), member_quotes@) ==> ((r
                == Result::<(), SubmitError>::Err(
                SubmitError::TxAdd(TxAddError::TxBatchFeeTooLow),
            )) <==> spec_scaled_fee_short(required_usd, provided_usd)))
            &&& (r is Ok <==> (!spec_inappropriate_member(spec_member_txs(txs@), member_quotes@)
                && !spec_scaled_fee_short(required_usd, provided_usd)))
        }),
{
    // Fee eligibility and USD aggregation over the declared fees.
    let provided = match accumulate_batch_usd_fee(txs, member_quotes) {
        Ok(acc) => acc,
        Err(e) => {
            return Err(e);
        },
    };
    // The required fee, in USD: the reference-token quote times the
    // reference token's unit price.
    let req_m = match required_fee.checked_mul(eth_price.mantissa) {
        Some(m) => m,
        None => unreached(),
    };
    let required_usd = UDecimal { mantissa: req_m, scale: eth_price.scale };
    proof {
        vstd::arithmetic::mul::lemma_mul_is_associative(
            required_fee as int,
            eth_price.mantissa as int,
            pow10((MAX_SCALE - eth_price.scale) as nat),
        );
    }
    let scaled_provided = scale_user_fee_up(provided);
    // A scaled declared fee that exactly covers the requirement is
    // accepted: only a strict shortfall rejects the batch.
    let too_low = dec_lt(&scaled_provided, &required_usd);
    proof {
        if provided.scaled() >= cent_scaled() {
            lemma_mul_le_iff(required_usd.scaled(), scaled_provided.scaled(), 100);
        }
    }
    if too_low {
        return Err(SubmitError::TxAdd(TxAddError::TxBatchFeeTooLow));
    }
    Ok(())
}

/// What the external collaborators answered for one batch submission.
pub struct BatchAnswers {
    /// Per member: the ticker's token verdict and unit price.
    pub member_quotes: Vec<FeeQuote>,
    /// Per member: the token resolved through the cache.
    pub tokens: Vec<Option<Token>>,
    /// The ticker's required fee for the whole batch, in the reference
    /// token's smallest unit.
    pub required_fee: u128,
    /// The reference token's USD unit price.
    pub eth_price: UDecimal,
    /// Per member: the verifier's verdicts, for the member-by-member path.
    pub member_verifies: Vec<MemberVerify>,
    /// The verifier's verdict on the aggregate signature.
    pub first_verify: Result<(), TxAddError>,
    /// The verifier's verdict on the aggregate legacy retry.
    pub legacy_verify: Result<(), TxAddError>,
    /// The core server's reply.
    pub core_send: Result<Result<(), TxAddError>, String>,
}

impl TxSender {
    /// Admits or rejects a whole batch, deciding from the collaborators'
    /// answers.  A batch is judged as a unit, in this order: it must not be
    /// empty, no member may close an account, every nonzero declared fee
    /// must be paid in an approved token, the USD value of all declared
    /// fees scaled up by the drift policy must cover the required fee, and
    /// the signatures must verify — the aggregate one over the digest of
    /// the members' encodings when supplied, each member on its own
    /// otherwise.  On success the members' hashes are returned in
    /// submission order; no partial forwarding occurs.
    #[verifier::loop_isolation(false)]
    pub fn submit_txs_batch(
        &self,
        txs: Vec<(Tx, Option<TxEthSignature>)>,
        eth_signature: Option<TxEthSignature>,
        answers: BatchAnswers,
    ) -> (r: Result<Vec<TxHash>, SubmitError>)
        requires
            txs@.len() == answers.member_quotes@.len(),
            txs@.len() == answers.tokens@.len(),
            txs@.len() == answers.member_verifies@.len(),
            forall|i: int|
                0 <= i < answers.member_quotes@.len() ==> (#[trigger] answers.member_quotes@[i]).price.wf()
                    && answers.member_quotes@[i].price.scale + 2 <= MAX_SCALE,
            spec_batch_provided_usd(spec_member_txs(txs@), answers.member_quotes@) <= (u128::MAX
                / 105) * 100,
            answers.eth_price.wf(),
            answers.required_fee * answers.eth_price.mantissa <= u128::MAX,
        ensures
            ({
                let members = txs@;
                let mtxs = spec_member_txs(members);
                let provided_usd = spec_batch_provided_usd(mtxs, answers.member_quotes@);
                let required_usd = answers.required_fee * answers.eth_price.scaled();
                let fee_gates_pass = members.len() > 0 && !spec_any_close(mtxs)
                    && !spec_inappropriate_member(mtxs, answers.member_quotes@)
                    && !spec_scaled_fee_short(required_usd, provided_usd);
                let verification_ok = spec_batch_verification_ok(
                    members,
                    eth_signature is Some,
                    answers.tokens@,
                    answers.member_verifies@,
                    answers.first_verify,
                    answers.legacy_verify,
                );
                &&& (members.len() == 0 ==> r == Result::<Vec<TxHash>, SubmitError>::Err(
                    SubmitError::TxAdd(TxAddError::EmptyBatch),
                ))
                &&& (members.len() > 0 && spec_any_close(mtxs) ==> r matches Err(
                    SubmitError::AccountCloseDisabled,
                ))
                &&& (members.len() > 0 && !spec_any_close(mtxs) && spec_inappropriate_member(
                    mtxs,
                    answers.member_quotes@,
                ) ==> r == Result::<Vec<TxHash>, SubmitError>::Err(
                    SubmitError::InappropriateFeeToken,
                ))
                &&& (members.len() > 0 && !spec_any_close(mtxs) && !spec_inappropriate_member(
                    mtxs,
                    answers.member_quotes@,
                ) && spec_scaled_fee_short(required_usd, provided_usd) ==> r == Result::<
                    Vec<TxHash>,
                    SubmitError,
                >::Err(SubmitError::TxAdd(TxAddError::TxBatchFeeTooLow)))
                &&& (fee_gates_pass && eth_signature is Some ==> {
                    &&& (spec_missing_token(mtxs, answers.tokens@) ==> r matches Err(
                        SubmitError::Other(_),
                    ))
                    &&& (!spec_missing_token(mtxs, answers.tokens@) ==> (spec_verify_outcome(
                        spec_batch_legacy(mtxs, answers.tokens@),
                        answers.first_verify,
                        answers.legacy_verify,
                    ) matches Err(e) ==> r == Result::<Vec<TxHash>, SubmitError>::Err(
                        SubmitError::TxAdd(e),
                    )))
                })
                &&& (fee_gates_pass && eth_signature is None && !spec_all_members_ok(
                    members,
                    answers.tokens@,
                    answers.member_verifies@,
                ) ==> (r is Err && exists|k: int|
                    #![trigger members[k], answers.member_verifies@[k]]
                    {
                        &&& 0 <= k < members.len()
                        &&& (forall|j: int|
                            0 <= j < k ==> spec_member_ok(
                                (#[trigger] members[j]).0,
                                members[j].1,
                                answers.tokens@[j],
                                answers.member_verifies@[j],
                            ))
                        &&& !spec_member_ok(
                            (#[trigger] members[k]).0,
                            members[k].1,
                            answers.tokens@[k],
                            answers.member_verifies@[k],
                        )
                        &&& (spec_needs_sign_message(members[k].0) && answers.tokens@[k] is None
                            ==> r matches Err(SubmitError::Other(_)))
                        &&& (spec_needs_sign_message(members[k].0) && answers.tokens@[k] is Some
                            && members[k].1 is None ==> r == Result::<Vec<TxHash>, SubmitError>::Err(
                            SubmitError::TxAdd(TxAddError::MissingEthSignature),
                        ))
                        &&& (spec_needs_sign_message(members[k].0) && answers.tokens@[k] is Some
                            && members[k].1 is Some ==> (spec_verify_outcome(
                            spec_is_legacy_token(answers.tokens@[k].unwrap()),
                            answers.member_verifies@[k].first,
                            answers.member_verifies@[k].legacy,
                        ) matches Err(e) ==> r == Result::<Vec<TxHash>, SubmitError>::Err(
                            SubmitError::TxAdd(e),
                        )))
                        &&& (!spec_needs_sign_message(members[k].0) ==> (
                        answers.member_verifies@[k].first matches Err(e) ==> r == Result::<
                            Vec<TxHash>,
                            SubmitError,
                        >::Err(SubmitError::TxAdd(e))))
                    }))
                &&& (fee_gates_pass && verification_ok ==> {
                    &&& (answers.core_send matches Err(m) ==> r == Result::<
                        Vec<TxHash>,
                        SubmitError,
                    >::Err(SubmitError::CommunicationCoreServer(m)))
                    &&& (answers.core_send matches Ok(inner) ==> (inner matches Err(e) ==> r
                        == Result::<Vec<TxHash>, SubmitError>::Err(SubmitError::TxAdd(e))))
                    &&& (answers.core_send matches Ok(inner) ==> (inner is Ok ==> (r matches Ok(
                        hs,
                    ) && hs@.len() == members.len() && (forall|i: int|
                        0 <= i < members.len() ==> (#[trigger] hs@[i]).bytes@ == keccak_of(
                            spec_tx_bytes(members[i].0),
                        )))))
                })
                &&& (r is Ok <==> {
                    &&& fee_gates_pass
                    &&& verification_ok
                    &&& answers.core_send matches Ok(inner) && inner is Ok
                })
            }),
    {
        let ghost members = txs@;
        let n = txs.len();
        match check_batch_members(&txs) {
            Ok(()) => {},
            Err(e) => {
                return Err(e);
            },
        }
        match check_batch_fee(&txs, &answers.member_quotes, answers.required_fee, answers.eth_price) {
            Ok(()) => {},
            Err(e) => {
                return Err(e);
            },
        }
        // Signature verification: one aggregate signature over the whole
        // batch when supplied, every member on its own otherwise.
        match eth_signature {
            Some(signature) => {
                match self.glm_verify_txs_batch_info(
                    &txs,
                    signature,
                    &answers.tokens,
                    answers.first_verify,
                    answers.legacy_verify,
                ) {
                    Ok(_verified) => {},
                    Err(e) => {
                        return Err(e);
                    },
                }
            },
            None => {
                let mut k: usize = 0;
                while k < n
                    invariant
                        k <= n == txs@.len(),
                        members == txs@,
                        n == answers.tokens@.len() == answers.member_verifies@.len(),
                        forall|j: int|
                            0 <= j < k ==> spec_member_ok(
                                (#[trigger] members[j]).0,
                                members[j].1,
                                answers.tokens@[j],
                                answers.member_verifies@[j],
                            ),
                    decreases n - k,
                {
                    let sig_copy = clone_signature(&txs[k].1);
                    let mv = answers.member_verifies[k];
                    match self.glm_verify_tx_info(
                        &txs[k].0,
                        sig_copy,
                        &answers.tokens[k],
                        mv.first,
                        mv.legacy,
                    ) {
                        Ok(_verified) => {
                            proof {
                                assert(spec_member_ok(
                                    members[k as int].0,
                                    members[k as int].1,
                                    answers.tokens@[k as int],
                                    answers.member_verifies@[k as int],
                                ));
                            }
                        },
                        Err(e) => {
                            proof {
                                assert(!spec_member_ok(
                                    members[k as int].0,
                                    members[k as int].1,
                                    answers.tokens@[k as int],
                                    answers.member_verifies@[k as int],
                                ));
                                assert(!spec_all_members_ok(
                                    members,
                                    answers.tokens@,
                                    answers.member_verifies@,
                                ));
                            }
                            return Err(e);
                        },
                    }
                    k = k + 1;
                }
            },
        }
        // The members' content-addressed hashes, in submission order.
        let mut hashes: Vec<TxHash> = Vec::new();
        let mut h: usize = 0;
        while h < n
            invariant
                h <= n == txs@.len(),
                members == txs@,
                hashes@.len() == h,
                forall|j: int|
                    0 <= j < h ==> (#[trigger] hashes@[j]).bytes@ == keccak_of(
                        spec_tx_bytes(members[j].0),
                    ),
            decreases n - h,
        {
            hashes.push(txs[h].0.hash());
            h = h + 1;
        }
        match crate::admission::complete_submission(answers.core_send) {
            Ok(()) => Ok(hashes),
            Err(e) => Err(e),
        }
    }
}

} // verus!
