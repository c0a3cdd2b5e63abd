//! The data model of the rollup core: transactions, tokens, signatures.
//!
//! Amounts and fees are denominated in a token's smallest unit and carried as
//! `u128`; timestamps are seconds; addresses and signatures are byte strings.

use vstd::prelude::*;

verus! {

/// An account address: 20 raw bytes.
#[derive(Debug, Clone, Copy, PartialEq, Eq)]
pub struct Address(pub [u8; 20]);

/// A token's identity, as resolved through the token cache.
#[derive(Debug, Clone, PartialEq, Eq)]
pub struct Token {
    pub id: u32,
    pub symbol: Vec<u8>,
    pub decimals: u8,
}

/// An Ethereum signature supplied by the submitter, as raw bytes.
#[derive(Debug, Clone, PartialEq, Eq)]
pub struct TxEthSignature {
    pub bytes: Vec<u8>,
}

/// A signature together with the exact message it is expected to cover.
#[derive(Debug, Clone, PartialEq, Eq)]
pub struct EthSignData {
    pub signature: TxEthSignature,
    pub message: Vec<u8>,
}

/// A funds transfer between two accounts.
#[derive(Debug, Clone, Copy, PartialEq, Eq)]
pub struct Transfer {
    pub account_id: u32,
    pub from: Address,
    pub to: Address,
    pub token: u32,
    pub amount: u128,
    pub fee: u128,
    pub nonce: u32,
}

/// A withdrawal to an external address.  The `fast` flag is a server-set
/// processing option, not part of the transaction content the user signs.
#[derive(Debug, Clone, Copy, PartialEq, Eq)]
pub struct Withdraw {
    pub account_id: u32,
    pub from: Address,
    pub to: Address,
    pub token: u32,
    pub amount: u128,
    pub fee: u128,
    pub nonce: u32,
    pub fast: bool,
}

/// A third-party eviction of a target account's funds.
#[derive(Debug, Clone, Copy, PartialEq, Eq)]
pub struct ForcedExit {
    pub initiator_account_id: u32,
    pub target: Address,
    pub token: u32,
    pub fee: u128,
    pub nonce: u32,
}

/// A signing-key change for an account.
#[derive(Debug, Clone, Copy, PartialEq, Eq)]
pub struct ChangePubKey {
    pub account_id: u32,
    pub account: Address,
    pub new_pk_hash: [u8; 20],
    pub fee_token: u32,
    pub fee: u128,
    pub nonce: u32,
}

/// An account-close transaction (the feature is disabled at admission).
#[derive(Debug, Clone, Copy, PartialEq, Eq)]
pub struct Close {
    pub account: Address,
    pub nonce: u32,
}

/// A transaction, tagged by operation kind.
#[derive(Debug, Clone, Copy, PartialEq, Eq)]
pub enum Tx {
    Transfer(Transfer),
    Withdraw(Withdraw),
    ForcedExit(ForcedExit),
    ChangePubKey(ChangePubKey),
    Close(Close),
}

/// The kind under which a fee quote is requested from the ticker.
#[derive(Debug, Clone, Copy, PartialEq, Eq, Structural)]
pub enum TxFeeType {
    Transfer,
    Withdraw,
    FastWithdraw,
    ChangePubKey,
}

/// What a transaction declares for fee purposes: the quote kind, the token
/// the fee is paid in, the address the quote is keyed by, and the declared
/// fee amount.
#[derive(Debug, Clone, Copy, PartialEq, Eq)]
pub struct FeeInfo {
    pub fee_type: TxFeeType,
    pub token: u32,
    pub address: Address,
    pub fee: u128,
}

impl Tx {
    /// Whether this is an account-close transaction.
    pub open spec fn spec_is_close(self) -> bool {
        self is Close
    }

    /// Whether this is a withdrawal.
    pub open spec fn spec_is_withdraw(self) -> bool {
        self is Withdraw
    }

    /// Whether this is an account-close transaction.
    pub fn is_close(&self) -> (r: bool)
        ensures
            r == self.spec_is_close(),
    {
        match self {
            Tx::Close(_) => true,
            _ => false,
        }
    }

    /// Whether this is a withdrawal.
    pub fn is_withdraw(&self) -> (r: bool)
        ensures
            r == self.spec_is_withdraw(),
    {
        match self {
            Tx::Withdraw(_) => true,
            _ => false,
        }
    }

    /// The declared fee data of this transaction, if its kind carries fee
    /// semantics.
    pub open spec fn spec_fee_info(self) -> Option<FeeInfo> {
        match self {
            Tx::Transfer(t) => Some(
                FeeInfo {
                    fee_type: TxFeeType::Transfer,
                    token: t.token,
                    address: t.to,
                    fee: t.fee,
                },
            ),
            Tx::Withdraw(t) => Some(
                FeeInfo {
                    fee_type: if t.fast {
                        TxFeeType::FastWithdraw
                    } else {
                        TxFeeType::Withdraw
                    },
                    token: t.token,
                    address: t.to,
                    fee: t.fee,
                },
            ),
            Tx::ForcedExit(t) => Some(
                FeeInfo {
                    fee_type: TxFeeType::Withdraw,
                    token: t.token,
                    address: t.target,
                    fee: t.fee,
                },
            ),
            Tx::ChangePubKey(t) => Some(
                FeeInfo {
                    fee_type: TxFeeType::ChangePubKey,
                    token: t.fee_token,
                    address: t.account,
                    fee: t.fee,
                },
            ),
            Tx::Close(_) => None,
        }
    }

    /// The declared fee data of this transaction, if its kind carries fee
    /// semantics.
    pub fn get_fee_info(&self) -> (r: Option<FeeInfo>)
        ensures
            r == self.spec_fee_info(),
    {
        match self {
            Tx::Transfer(t) => Some(
                FeeInfo {
                    fee_type: TxFeeType::Transfer,
                    token: t.token,
                    address: t.to,
                    fee: t.fee,
                },
            ),
            Tx::Withdraw(t) => Some(
                FeeInfo {
                    fee_type: if t.fast {
                        TxFeeType::FastWithdraw
                    } else {
                        TxFeeType::Withdraw
                    },
                    token: t.token,
                    address: t.to,
                    fee: t.fee,
                },
            ),
            Tx::ForcedExit(t) => Some(
                FeeInfo {
                    fee_type: TxFeeType::Withdraw,
                    token: t.token,
                    address: t.target,
                    fee: t.fee,
                },
            ),
            Tx::ChangePubKey(t) => Some(
                FeeInfo {
                    fee_type: TxFeeType::ChangePubKey,
                    token: t.fee_token,
                    address: t.account,
                    fee: t.fee,
                },
            ),
            Tx::Close(_) => None,
        }
    }
}

/// A transaction with the signature data that verification attached.
/// Produced only by the verification step.
#[derive(Debug, Clone, PartialEq, Eq)]
pub struct SignedTx {
    pub tx: Tx,
    pub eth_sign_data: Option<EthSignData>,
}

/// What the signature verifier is asked to check: a single transaction, or a
/// batch with one aggregate signature covering all members in order.
#[derive(Debug, Clone, PartialEq, Eq)]
pub enum TxVariant {
    Tx(SignedTx),
    Batch(Vec<SignedTx>, EthSignData),
}

/// A content-addressed transaction hash.
#[derive(Debug, Clone, PartialEq, Eq)]
pub struct TxHash {
    pub bytes: Vec<u8>,
}

/// A fee quote from the ticker for a single transaction, in the smallest
/// unit of the quoted token.
#[derive(Debug, Clone, Copy, PartialEq, Eq, Structural)]
pub struct Fee {
    pub total_fee: u128,
}

/// An aggregate fee quote from the ticker for a set of transactions.
#[derive(Debug, Clone, Copy, PartialEq, Eq, Structural)]
pub struct BatchFee {
    pub total_fee: u128,
}

/// Copies a byte vector.
pub fn clone_bytes(v: &Vec<u8>) -> (r: Vec<u8>)
    ensures
        r@ == v@,
{
    let mut out: Vec<u8> = Vec::new();
    let n = v.len();
    let mut i: usize = 0;
    while i < n
        invariant
            i <= n == v@.len(),
            out@ == v@.subrange(0, i as int),
        decreases n - i,
    {
        out.push(v[i]);
        assert(out@ =~= v@.subrange(0, i + 1));
        i = i + 1;
    }
    assert(v@.subrange(0, n as int) =~= v@);
    out
}

/// Byte-wise equality of two byte vectors.
pub fn bytes_eq(a: &Vec<u8>, b: &Vec<u8>) -> (r: bool)
    ensures
        r == (a@ == b@),
{
    if a.len() != b.len() {
        assert(a@ != b@) by {
            assert(a@.len() != b@.len());
        }
        return false;
    }
    let n = a.len();
    let mut i: usize = 0;
    while i < n
        invariant
            n == a@.len() == b@.len(),
            i <= n,
            forall|j: int| 0 <= j < i ==> a@[j] == b@[j],
        decreases n - i,
    {
        if a[i] != b[i] {
            return false;
        }
        i = i + 1;
    }
    proof {
        assert(a@ =~= b@);
    }
    true
}

} // verus!
