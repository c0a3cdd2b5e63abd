//! The admission and fee-enforcement pipeline: per-submission policy gates,
//! fee sufficiency, and orchestration of signature verification.
//!
//! The fee ticker, the signature verifier, the token cache and the core
//! server are external actors reached over channels; each public operation
//! here takes what they answered as arguments and makes every decision from
//! those answers, so the whole decision is verified for every possible
//! answer.

use vstd::prelude::*;
use vstd::string::StringExecFns;
use crate::codec::{keccak_of, spec_tx_bytes};
use crate::decimal::{
    cent_scaled, dec_le, lemma_mul_le_iff, max_i, pow10, scale_user_fee_up, UDecimal, MAX_SCALE,
};
use crate::error::{SubmitError, TxAddError};
use crate::types::{
    bytes_eq, EthSignData, SignedTx, Token, Tx, TxEthSignature, TxHash, Withdraw,
};

verus! {

/// The deprecated token symbol that triggers the legacy-compatibility
/// signature fallback ("GNT").
pub open spec fn spec_legacy_symbol() -> Seq<u8> {
    seq![71u8, 78u8, 84u8]
}

/// The fixed symbol used in the legacy signing-message template ("tGLM").
pub open spec fn spec_legacy_message_symbol() -> Seq<u8> {
    seq![116u8, 71u8, 76u8, 77u8]
}

/// The bytes of the deprecated token symbol, "GNT".
pub fn legacy_symbol() -> (r: Vec<u8>)
    ensures
        r@ == spec_legacy_symbol(),
{
    let mut v: Vec<u8> = Vec::new();
    v.push(71);
    v.push(78);
    v.push(84);
    assert(v@ =~= spec_legacy_symbol());
    v
}

/// The bytes of the legacy signing-message symbol, "tGLM".
pub fn legacy_message_symbol() -> (r: Vec<u8>)
    ensures
        r@ == spec_legacy_message_symbol(),
{
    let mut v: Vec<u8> = Vec::new();
    v.push(116);
    v.push(71);
    v.push(76);
    v.push(77);
    assert(v@ =~= spec_legacy_message_symbol());
    v
}

/// Whether a token carries the deprecated symbol.
pub open spec fn spec_is_legacy_token(t: Token) -> bool {
    t.symbol@ == spec_legacy_symbol()
}

/// Whether a transaction kind carries a human-readable message the user
/// must sign: transfers and withdrawals do, other kinds do not.
pub open spec fn spec_needs_sign_message(tx: Tx) -> bool {
    tx is Transfer || tx is Withdraw
}

/// The message a user signs for a transaction, resolved against a token
/// symbol and its decimals: the symbol, the decimals, then the canonical
/// transaction bytes.
pub open spec fn spec_sign_message(tx: Tx, symbol: Seq<u8>, decimals: u8) -> Seq<u8> {
    symbol + seq![decimals] + spec_tx_bytes(tx)
}

/// Builds the signing message for a transaction against the given token
/// symbol and decimals; only transfers and withdrawals carry one.
pub fn tx_message_to_sign_with(tx: &Tx, symbol: &Vec<u8>, decimals: u8) -> (r: Option<Vec<u8>>)
    ensures
        r is Some <==> spec_needs_sign_message(*tx),
        r matches Some(m) ==> m@ == spec_sign_message(*tx, symbol@, decimals),
{
    let needs = match tx {
        Tx::Transfer(_) => true,
        Tx::Withdraw(_) => true,
        _ => false,
    };
    if !needs {
        return None;
    }
    let mut m: Vec<u8> = Vec::new();
    let n = symbol.len();
    let mut i: usize = 0;
    while i < n
        invariant
            i <= n == symbol@.len(),
            m@ == symbol@.subrange(0, i as int),
        decreases n - i,
    {
        m.push(symbol[i]);
        assert(m@ =~= symbol@.subrange(0, i + 1));
        i = i + 1;
    }
    assert(symbol@.subrange(0, n as int) =~= symbol@);
    m.push(decimals);
    let mut body = tx.get_bytes();
    let k = body.len();
    let mut j: usize = 0;
    while j < k
        invariant
            j <= k == body@.len(),
            m@ == symbol@ + seq![decimals] + body@.subrange(0, j as int),
        decreases k - j,
    {
        m.push(body[j]);
        assert(m@ =~= symbol@ + seq![decimals] + body@.subrange(0, j + 1));
        j = j + 1;
    }
    assert(body@.subrange(0, k as int) =~= body@);
    Some(m)
}

/// Resolves the signing message for a transaction from the token-cache
/// answer: transactions that need no message get none; a transaction that
/// needs one fails with an uncategorized error when the token is unknown.
pub fn tx_message_to_sign(tx: &Tx, token: &Option<Token>) -> (r: Result<
    Option<Vec<u8>>,
    SubmitError,
>)
    ensures
        r matches Err(e) ==> (e matches SubmitError::Other(m) && m@ == "Token not found in the DB"@),
        r is Err <==> spec_needs_sign_message(*tx) && token is None,
        !spec_needs_sign_message(*tx) ==> r == Result::<Option<Vec<u8>>, SubmitError>::Ok(None),
        r matches Ok(Some(m)) ==> (token matches Some(tok) && m@ == spec_sign_message(
            *tx,
            tok.symbol@,
            tok.decimals,
        )),
        spec_needs_sign_message(*tx) && token is Some ==> r matches Ok(Some(_)),
{
    let needs = match tx {
        Tx::Transfer(_) => true,
        Tx::Withdraw(_) => true,
        _ => false,
    };
    if !needs {
        return Ok(None);
    }
    match token {
        None => Err(SubmitError::other(String::from_str("Token not found in the DB"))),
        Some(tok) => Ok(tx_message_to_sign_with(tx, &tok.symbol, tok.decimals)),
    }
}

/// Builds the legacy signing message: the fixed deprecated symbol with the
/// caller-supplied decimals; only transfers and withdrawals carry one.
pub fn glm_force_tx_message_to_sign(tx: &Tx, decimals: u8) -> (r: Option<Vec<u8>>)
    ensures
        r is Some <==> spec_needs_sign_message(*tx),
        r matches Some(m) ==> m@ == spec_sign_message(*tx, spec_legacy_message_symbol(), decimals),
{
    let symbol = legacy_message_symbol();
    tx_message_to_sign_with(tx, &symbol, decimals)
}

/// The verifier's resulting verdict once the legacy fallback is applied:
/// a first success stands; after a first failure, one retry against the
/// legacy message decides only for the deprecated token, and if the retry
/// fails too the original error is returned, not the retry's.
pub open spec fn spec_verify_outcome(
    legacy_applicable: bool,
    first: Result<(), TxAddError>,
    retry: Result<(), TxAddError>,
) -> Result<(), TxAddError> {
    match first {
        Ok(_) => Ok(()),
        Err(e) => if legacy_applicable {
            match retry {
                Ok(_) => Ok(()),
                Err(_) => Err(e),
            }
        } else {
            Err(e)
        },
    }
}

/// The integer fixed-point view of a fee given in a token's smallest unit.
pub open spec fn spec_int_scaled(x: u128) -> int {
    x * pow10(MAX_SCALE as nat)
}

/// Whether a declared fee, once scaled up by the drift policy, still fails
/// to exceed the required fee, stated over fixed-point views (the 5% branch
/// is multiplied through by 100, so no division appears).
pub open spec fn spec_scaled_fee_too_low(required_scaled: int, provided_scaled: int) -> bool {
    if provided_scaled < cent_scaled() {
        required_scaled >= 2 * provided_scaled
    } else {
        100 * required_scaled >= max_i(
            105 * provided_scaled,
            100 * provided_scaled + 100 * cent_scaled(),
        )
    }
}

/// Whether a declared fee fails to cover a required fee, both in the same
/// token's smallest unit.
pub open spec fn spec_fee_too_low(required: u128, provided: u128) -> bool {
    spec_scaled_fee_too_low(spec_int_scaled(required), spec_int_scaled(provided))
}

/// Whether a scaled declared fee falls strictly short of the required fee:
/// the batch rule, under which a fee that exactly covers the requirement is
/// accepted.  Stated like [`spec_scaled_fee_too_low`], with strict
/// comparisons.
pub open spec fn spec_scaled_fee_short(required_scaled: int, provided_scaled: int) -> bool {
    if provided_scaled < cent_scaled() {
        required_scaled > 2 * provided_scaled
    } else {
        100 * required_scaled > max_i(
            105 * provided_scaled,
            100 * provided_scaled + 100 * cent_scaled(),
        )
    }
}

/// Decides fee sufficiency for a single transaction: the declared fee is
/// scaled up by the drift policy and must strictly exceed the required fee.
pub fn tx_fee_too_low(required_fee: u128, provided_fee: u128) -> (r: bool)
    requires
        provided_fee <= u128::MAX / 105,
    ensures
        r == spec_fee_too_low(required_fee, provided_fee),
{
    let req = UDecimal::from_int(required_fee);
    let prov = UDecimal::from_int(provided_fee);
    let scaled_provided = scale_user_fee_up(prov);
    let r = dec_le(&scaled_provided, &req);
    proof {
        if prov.scaled() >= cent_scaled() {
            lemma_mul_le_iff(scaled_provided.scaled(), req.scaled(), 100);
        }
    }
    r
}

/// What the external collaborators answered during one submission: the
/// clock, the target-account lookup, the ticker's verdicts, the verifier's
/// outcomes (the legacy one only consulted when the fallback applies), and
/// the core server's reply.
pub struct SubmitAnswers {
    /// The current time, in seconds.
    pub now: u64,
    /// When the forced-exit target account was created, if it exists.
    pub target_account_created_at: Option<u64>,
    /// The fee/message token, as resolved through the token cache.
    pub token: Option<Token>,
    /// The ticker's verdict on whether the fee token may pay fees.
    pub fee_token_allowed: bool,
    /// The ticker's required fee, in the fee token's smallest unit.
    pub required_fee: u128,
    /// The verifier's verdict on the primary signing message.
    pub first_verify: Result<(), TxAddError>,
    /// The verifier's verdict on the legacy retry.
    pub legacy_verify: Result<(), TxAddError>,
    /// The core server's reply: transport failure outside, mempool verdict
    /// inside.
    pub core_send: Result<Result<(), TxAddError>, String>,
}

/// The per-submission policy: the minimum age a forced-exit target account
/// must have, and whether signing-key changes must pay fees.
pub struct TxSender {
    /// Minimum age of the account for forced exits to be allowed, seconds.
    pub forced_exit_minimum_account_age: u64,
    /// Whether fee enforcement also applies to signing-key changes.
    pub enforce_pubkey_change_fee: bool,
}

/// A forced exit is admissible only against a target account that exists
/// and was created at least the configured minimum age before now.  The
/// boundary instant is admissible.
pub open spec fn spec_forced_exit_ok(min_age: u64, created_at: Option<u64>, now: u64) -> bool {
    created_at matches Some(t) && now - t >= min_age
}

impl TxSender {
    /// Builds the pipeline from its configuration.
    pub fn new(forced_exit_minimum_account_age_secs: u64, enforce_pubkey_change_fee: bool) -> (r:
        TxSender)
        ensures
            r.forced_exit_minimum_account_age == forced_exit_minimum_account_age_secs,
            r.enforce_pubkey_change_fee == enforce_pubkey_change_fee,
    {
        TxSender {
            forced_exit_minimum_account_age: forced_exit_minimum_account_age_secs,
            enforce_pubkey_change_fee,
        }
    }

    /// Policy gate for forced exits: rejects when the target account does
    /// not exist or is younger than the configured minimum age, so that new
    /// account owners get an opportunity to set their signing key first.
    pub fn check_forced_exit(&self, target_created_at: Option<u64>, now: u64) -> (r: Result<
        (),
        SubmitError,
    >)
        ensures
            r is Ok <==> spec_forced_exit_ok(
                self.forced_exit_minimum_account_age,
                target_created_at,
                now,
            ),
            r matches Err(e) ==> e matches SubmitError::InvalidParams(_),
            target_created_at is None ==> (r matches Err(SubmitError::InvalidParams(m)) && m@
                == "Target account does not exist"@),
            (target_created_at matches Some(t) && now - t
                < self.forced_exit_minimum_account_age) ==> (r matches Err(
                SubmitError::InvalidParams(m),
            ) && m@ == "Target account exists less than required minimum amount"@),
    {
        match target_created_at {
            None => Err(
                SubmitError::invalid_params(String::from_str("Target account does not exist")),
            ),
            Some(t) => {
                if t <= now && now - t >= self.forced_exit_minimum_account_age {
                    Ok(())
                } else {
                    Err(
                        SubmitError::invalid_params(
                            String::from_str(
                                "Target account exists less than required minimum amount",
                            ),
                        ),
                    )
                }
            },
        }
    }

    /// Builds the signed transaction and resolves the verifier's verdict
    /// for a single transaction, applying the legacy-token fallback.  On
    /// success the signed transaction carries exactly the message that was
    /// verified: the token's own message, or the legacy one if the retry
    /// decided.
    pub fn glm_verify_tx_info(
        &self,
        tx: &Tx,
        signature: Option<TxEthSignature>,
        token: &Option<Token>,
        first_verify: Result<(), TxAddError>,
        legacy_verify: Result<(), TxAddError>,
    ) -> (r: Result<SignedTx, SubmitError>)
        ensures
            spec_needs_sign_message(*tx) && token is None ==> r matches Err(
                SubmitError::Other(_),
            ),
            spec_needs_sign_message(*tx) && token is Some && signature is None ==> r
                == Result::<SignedTx, SubmitError>::Err(
                SubmitError::TxAdd(TxAddError::MissingEthSignature),
            ),
            spec_needs_sign_message(*tx) ==> (token matches Some(tok) ==> (signature matches Some(
                sig,
            ) ==> (match spec_verify_outcome(
                spec_is_legacy_token(*tok),
                first_verify,
                legacy_verify,
            ) {
                Err(e) => r == Result::<SignedTx, SubmitError>::Err(SubmitError::TxAdd(e)),
                Ok(_) => r matches Ok(st) && {
                    &&& st.tx == *tx
                    &&& st.eth_sign_data matches Some(sd)
                    &&& sd.signature.bytes@ == sig.bytes@
                    &&& sd.message@ == if first_verify is Ok {
                        spec_sign_message(*tx, tok.symbol@, tok.decimals)
                    } else {
                        spec_sign_message(*tx, spec_legacy_message_symbol(), tok.decimals)
                    }
                },
            }))),
            !spec_needs_sign_message(*tx) ==> (match first_verify {
                Ok(_) => r matches Ok(st) && st.tx == *tx && st.eth_sign_data is None,
                Err(e) => r == Result::<SignedTx, SubmitError>::Err(SubmitError::TxAdd(e)),
            }),
    {
        let msg = match tx_message_to_sign(tx, token) {
            Ok(m) => m,
            Err(e) => {
                return Err(e);
            },
        };
        match msg {
            Some(message) => {
                let tok = match token {
                    Some(tok) => tok,
                    None => unreached(),
                };
                let sig = match signature {
                    Some(sig) => sig,
                    None => {
                        return Err(SubmitError::TxAdd(TxAddError::MissingEthSignature));
                    },
                };
                match first_verify {
                    Ok(_) => Ok(
                        SignedTx {
                            tx: *tx,
                            eth_sign_data: Some(EthSignData { signature: sig, message }),
                        },
                    ),
                    Err(e) => {
                        let gnt = legacy_symbol();
                        if bytes_eq(&tok.symbol, &gnt) {
                            match legacy_verify {
                                Ok(_) => {
                                    let legacy_message = match glm_force_tx_message_to_sign(
                                        tx,
                                        tok.decimals,
                                    ) {
                                        Some(m) => m,
                                        None => unreached(),
                                    };
                                    Ok(
                                        SignedTx {
                                            tx: *tx,
                                            eth_sign_data: Some(
                                                EthSignData {
                                                    signature: sig,
                                                    message: legacy_message,
                                                },
                                            ),
                                        },
                                    )
                                },
                                Err(_) => Err(SubmitError::TxAdd(e)),
                            }
                        } else {
                            Err(SubmitError::TxAdd(e))
                        }
                    },
                }
            },
            None => {
                match first_verify {
                    Ok(_) => Ok(SignedTx { tx: *tx, eth_sign_data: None }),
                    Err(e) => Err(SubmitError::TxAdd(e)),
                }
            },
        }
    }
}

impl TxSender {
    /// Whether fee enforcement applies to a fee kind: always, except that
    /// signing-key changes are exempt unless configuration forces it.
    pub open spec fn spec_should_enforce_fee(self, fee_type: crate::types::TxFeeType) -> bool {
        !(fee_type is ChangePubKey) || self.enforce_pubkey_change_fee
    }

    /// Whether a submission clears every precheck: the account-close gate,
    /// the forced-exit age gate, the fast-processing gate, and the rule
    /// that a withdrawal's fast flag is server-set only.
    pub open spec fn spec_prechecks_pass(
        self,
        tx: Tx,
        fast: bool,
        target_created_at: Option<u64>,
        now: u64,
    ) -> bool {
        &&& !tx.spec_is_close()
        &&& (tx is ForcedExit ==> spec_forced_exit_ok(
            self.forced_exit_minimum_account_age,
            target_created_at,
            now,
        ))
        &&& !(fast && !tx.spec_is_withdraw())
        &&& !(tx matches Tx::Withdraw(w) && w.fast)
    }

    /// Whether a submission clears fee enforcement: kinds without fee
    /// semantics always do; others need a ticker-approved token and, where
    /// enforcement applies, a declared fee that scales up past the required
    /// one.
    pub open spec fn spec_fee_checks_pass(
        self,
        tx2: Tx,
        fee_token_allowed: bool,
        required_fee: u128,
    ) -> bool {
        match tx2.spec_fee_info() {
            Some(fi) => fee_token_allowed && !(self.spec_should_enforce_fee(fi.fee_type)
                && spec_fee_too_low(required_fee, fi.fee)),
            None => true,
        }
    }

    /// Whether signature verification succeeds for a single transaction,
    /// the legacy fallback included.
    pub open spec fn spec_verification_passes(
        self,
        tx2: Tx,
        signature: Option<TxEthSignature>,
        answers: SubmitAnswers,
    ) -> bool {
        if spec_needs_sign_message(tx2) {
            &&& answers.token is Some
            &&& signature is Some
            &&& spec_verify_outcome(
                spec_is_legacy_token(answers.token.unwrap()),
                answers.first_verify,
                answers.legacy_verify,
            ) is Ok
        } else {
            answers.first_verify is Ok
        }
    }

    /// Admits or rejects one transaction, deciding from the collaborators'
    /// answers: the account-close gate, the forced-exit age gate, the
    /// fast-processing gates, fee enforcement, signature verification with
    /// the legacy fallback, and the core server's verdict, in that order.
    /// On success the content-addressed hash of the admitted transaction is
    /// returned; the hash ignores the server-set fast flag.
    pub fn submit_tx(
        &self,
        tx: Tx,
        signature: Option<TxEthSignature>,
        fast_processing: Option<bool>,
        answers: SubmitAnswers,
    ) -> (r: Result<TxHash, SubmitError>)
        requires
            tx.spec_fee_info() matches Some(fi) ==> fi.fee <= u128::MAX / 105,
        ensures
            ({
                let fast = fast_processing == Some(true);
                let tx2 = spec_with_fast(tx, fast);
                &&& (tx.spec_is_close() ==> r matches Err(SubmitError::AccountCloseDisabled))
                &&& (!tx.spec_is_close() && tx is ForcedExit && !spec_forced_exit_ok(
                    self.forced_exit_minimum_account_age,
                    answers.target_account_created_at,
                    answers.now,
                ) ==> r matches Err(SubmitError::InvalidParams(_)))
                &&& (!tx.spec_is_close() && (tx is ForcedExit ==> spec_forced_exit_ok(
                    self.forced_exit_minimum_account_age,
                    answers.target_account_created_at,
                    answers.now,
                )) && fast && !tx.spec_is_withdraw() ==> r matches Err(
                    SubmitError::UnsupportedFastProcessing,
                ))
                &&& ((!tx.spec_is_close() && (tx is ForcedExit ==> spec_forced_exit_ok(
                    self.forced_exit_minimum_account_age,
                    answers.target_account_created_at,
                    answers.now,
                )) && !(fast && !tx.spec_is_withdraw())) ==> (tx matches Tx::Withdraw(w) ==> (
                w.fast ==> r matches Err(SubmitError::IncorrectTx(_)))))
                &&& (self.spec_prechecks_pass(
                    tx,
                    fast,
                    answers.target_account_created_at,
                    answers.now,
                ) ==> {
                    &&& (tx2.spec_fee_info() is Some && !answers.fee_token_allowed ==> r matches
                        Err(SubmitError::InappropriateFeeToken))
                    &&& (tx2.spec_fee_info() matches Some(fi) ==> (answers.fee_token_allowed
                        && self.spec_should_enforce_fee(fi.fee_type) && spec_fee_too_low(
                        answers.required_fee,
                        fi.fee,
                    ) ==> r == Result::<TxHash, SubmitError>::Err(
                        SubmitError::TxAdd(TxAddError::TxFeeTooLow),
                    )))
                    &&& (self.spec_fee_checks_pass(
                        tx2,
                        answers.fee_token_allowed,
                        answers.required_fee,
                    ) ==> {
                        &&& (spec_needs_sign_message(tx2) && answers.token is None ==> r matches
                            Err(SubmitError::Other(_)))
                        &&& (spec_needs_sign_message(tx2) && answers.token is Some && signature
                            is None ==> r == Result::<TxHash, SubmitError>::Err(
                            SubmitError::TxAdd(TxAddError::MissingEthSignature),
                        ))
                        &&& (spec_needs_sign_message(tx2) && answers.token is Some && signature
                            is Some ==> (spec_verify_outcome(
                            spec_is_legacy_token(answers.token.unwrap()),
                            answers.first_verify,
                            answers.legacy_verify,
                        ) matches Err(e) ==> r == Result::<TxHash, SubmitError>::Err(
                            SubmitError::TxAdd(e),
                        )))
                        &&& (!spec_needs_sign_message(tx2) ==> (answers.first_verify matches Err(
                            e,
                        ) ==> r == Result::<TxHash, SubmitError>::Err(SubmitError::TxAdd(e))))
                        &&& (self.spec_verification_passes(tx2, signature, answers) ==> {
                            &&& (answers.core_send matches Err(m) ==> r == Result::<
                                TxHash,
                                SubmitError,
                            >::Err(SubmitError::CommunicationCoreServer(m)))
                            &&& (answers.core_send matches Ok(inner) ==> (inner matches Err(e)
                                ==> r == Result::<TxHash, SubmitError>::Err(
                                SubmitError::TxAdd(e),
                            )))
                            &&& (answers.core_send matches Ok(inner) ==> (inner is Ok ==> (r
                                matches Ok(h) && h.bytes@ == keccak_of(spec_tx_bytes(tx2)))))
                        })
                    })
                })
                &&& (r is Ok <==> {
                    &&& self.spec_prechecks_pass(
                        tx,
                        fast,
                        answers.target_account_created_at,
                        answers.now,
                    )
                    &&& self.spec_fee_checks_pass(
                        tx2,
                        answers.fee_token_allowed,
                        answers.required_fee,
                    )
                    &&& self.spec_verification_passes(tx2, signature, answers)
                    &&& answers.core_send matches Ok(inner) && inner is Ok
                })
            }),
    {
        let tx2 = match self.precheck_tx(
            tx,
            fast_processing,
            answers.target_account_created_at,
            answers.now,
        ) {
            Ok(t) => t,
            Err(e) => {
                return Err(e);
            },
        };
        match self.check_tx_fee(&tx2, answers.fee_token_allowed, answers.required_fee) {
            Ok(()) => {},
            Err(e) => {
                return Err(e);
            },
        }
        let _verified = match self.glm_verify_tx_info(
            &tx2,
            signature,
            &answers.token,
            answers.first_verify,
            answers.legacy_verify,
        ) {
            Ok(v) => v,
            Err(e) => {
                return Err(e);
            },
        };
        match complete_submission(answers.core_send) {
            Ok(()) => Ok(tx2.hash()),
            Err(e) => Err(e),
        }
    }

    /// The submission prechecks, run before any collaborator beyond storage
    /// is consulted: the account-close gate, the forced-exit age gate, the
    /// fast-processing gate, and the rule that a withdrawal's fast flag is
    /// server-set only.  On success the transaction is returned with its
    /// fast flag authoritatively overwritten from the request parameter.
    pub fn precheck_tx(
        &self,
        tx: Tx,
        fast_processing: Option<bool>,
        target_created_at: Option<u64>,
        now: u64,
    ) -> (r: Result<Tx, SubmitError>)
        ensures
            ({
                let fast = fast_processing == Some(true);
                &&& (tx.spec_is_close() ==> r matches Err(SubmitError::AccountCloseDisabled))
                &&& (!tx.spec_is_close() && tx is ForcedExit && !spec_forced_exit_ok(
                    self.forced_exit_minimum_account_age,
                    target_created_at,
                    now,
                ) ==> r matches Err(SubmitError::InvalidParams(_)))
                &&& (!tx.spec_is_close() && (tx is ForcedExit ==> spec_forced_exit_ok(
                    self.forced_exit_minimum_account_age,
                    target_created_at,
                    now,
                )) && fast && !tx.spec_is_withdraw() ==> r matches Err(
                    SubmitError::UnsupportedFastProcessing,
                ))
                &&& ((!tx.spec_is_close() && (tx is ForcedExit ==> spec_forced_exit_ok(
                    self.forced_exit_minimum_account_age,
                    target_created_at,
                    now,
                )) && !(fast && !tx.spec_is_withdraw())) ==> (tx matches Tx::Withdraw(w) ==> (
                w.fast ==> r matches Err(SubmitError::IncorrectTx(_)))))
                &&& (r is Ok <==> self.spec_prechecks_pass(tx, fast, target_created_at, now))
                &&& (r matches Ok(t2) ==> t2 == spec_with_fast(tx, fast))
            }),
    {
        if tx.is_close() {
            return Err(SubmitError::AccountCloseDisabled);
        }
        match &tx {
            Tx::ForcedExit(_) => {
                match self.check_forced_exit(target_created_at, now) {
                    Ok(()) => {},
                    Err(e) => {
                        return Err(e);
                    },
                }
            },
            _ => {},
        }
        let fast_processing_flag = match fast_processing {
            Some(b) => b,
            None => false,
        };
        if fast_processing_flag && !tx.is_withdraw() {
            return Err(SubmitError::UnsupportedFastProcessing);
        }
        match &tx {
            Tx::Withdraw(w) => {
                if w.fast {
                    // The flag is server-set; a submission that pre-sets it
                    // is malformed.
                    return Err(
                        SubmitError::IncorrectTx(
                            String::from_str(
                                "'fast' field of Withdraw transaction must not be set manually.",
                            ),
                        ),
                    );
                }
            },
            _ => {},
        }
        Ok(with_fast(tx, fast_processing_flag))
    }

    /// Fee enforcement for one transaction, run against the ticker's
    /// answers once the prechecks pass: kinds without fee semantics are
    /// exempt; others need a ticker-approved token and, where enforcement
    /// applies, a declared fee that scales up past the required one.
    pub fn check_tx_fee(&self, tx2: &Tx, fee_token_allowed: bool, required_fee: u128) -> (r:
        Result<(), SubmitError>)
        requires
            tx2.spec_fee_info() matches Some(fi) ==> fi.fee <= u128::MAX / 105,
        ensures
            (r matches Err(SubmitError::InappropriateFeeToken)) <==> (tx2.spec_fee_info() is Some
                && !fee_token_allowed),
            tx2.spec_fee_info() matches Some(fi) ==> (fee_token_allowed ==> ((r == Result::<
                (),
                SubmitError,
            >::Err(SubmitError::TxAdd(TxAddError::TxFeeTooLow))) <==> (
            self.spec_should_enforce_fee(fi.fee_type) && spec_fee_too_low(required_fee, fi.fee)))),
            r is Ok <==> self.spec_fee_checks_pass(*tx2, fee_token_allowed, required_fee),
    {
        match tx2.get_fee_info() {
            Some(fee_info) => {
                let should_enforce_fee = match fee_info.fee_type {
                    crate::types::TxFeeType::ChangePubKey => self.enforce_pubkey_change_fee,
                    _ => true,
                };
                if !fee_token_allowed {
                    return Err(SubmitError::InappropriateFeeToken);
                }
                // The price may change between signing the transaction and
                // sending it to the server, so the declared fee is scaled up
                // before the comparison.
                if tx_fee_too_low(required_fee, fee_info.fee) && should_enforce_fee {
                    return Err(SubmitError::TxAdd(TxAddError::TxFeeTooLow));
                }
                Ok(())
            },
            None => Ok(()),
        }
    }
}

/// Whether the legacy retry should be attempted for a single transaction:
/// the transaction carries a signing message, the resolved token bears the
/// deprecated symbol, and the first verdict failed.
pub fn legacy_retry_applies(
    tx: &Tx,
    token: &Option<Token>,
    first_verify: &Result<(), TxAddError>,
) -> (r: bool)
    ensures
        r == (spec_needs_sign_message(*tx) && (*token) is Some && spec_is_legacy_token(
            (*token).unwrap(),
        ) && (*first_verify) is Err),
{
    let needs = match tx {
        Tx::Transfer(_) => true,
        Tx::Withdraw(_) => true,
        _ => false,
    };
    if !needs {
        return false;
    }
    let failed = match first_verify {
        Err(_) => true,
        Ok(_) => false,
    };
    if !failed {
        return false;
    }
    match token {
        Some(t) => {
            let gnt = legacy_symbol();
            bytes_eq(&t.symbol, &gnt)
        },
        None => false,
    }
}

/// Maps the core server's reply once a fully verified submission has been
/// forwarded: a transport failure is a communication error, a mempool
/// refusal is wrapped, success stands.
pub fn complete_submission(core_send: Result<Result<(), TxAddError>, String>) -> (r: Result<
    (),
    SubmitError,
>)
    ensures
        core_send matches Err(m) ==> r == Result::<(), SubmitError>::Err(
            SubmitError::CommunicationCoreServer(m),
        ),
        core_send matches Ok(inner) ==> (inner matches Err(e) ==> r == Result::<
            (),
            SubmitError,
        >::Err(SubmitError::TxAdd(e))),
        r is Ok <==> ({
            &&& core_send matches Ok(inner) && inner is Ok
        }),
{
    match core_send {
        Err(m) => Err(SubmitError::communication_core_server(m)),
        Ok(Err(e)) => Err(SubmitError::TxAdd(e)),
        Ok(Ok(())) => Ok(()),
    }
}

/// The transaction with its server-set fast flag overwritten from the
/// request parameter; only withdrawals carry the flag.
pub open spec fn spec_with_fast(tx: Tx, fast: bool) -> Tx {
    match tx {
        Tx::Withdraw(w) => Tx::Withdraw(
            Withdraw {
                account_id: w.account_id,
                from: w.from,
                to: w.to,
                token: w.token,
                amount: w.amount,
                fee: w.fee,
                nonce: w.nonce,
                fast,
            },
        ),
        _ => tx,
    }
}

/// Overwrites the server-set fast flag from the request parameter.
pub fn with_fast(tx: Tx, fast: bool) -> (r: Tx)
    ensures
        r == spec_with_fast(tx, fast),
{
    match tx {
        Tx::Withdraw(w) => Tx::Withdraw(
            Withdraw {
                account_id: w.account_id,
                from: w.from,
                to: w.to,
                token: w.token,
                amount: w.amount,
                fee: w.fee,
                nonce: w.nonce,
                fast,
            },
        ),
        _ => tx,
    }
}

} // verus!
