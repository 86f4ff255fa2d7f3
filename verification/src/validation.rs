//! Checks a transaction against the ledger before it is executed: the source
//! account, its sequence number and balance, the time bounds and the
//! signatures.

use vstd::prelude::*;

use crate::crypto::{ed25519_accepts, ed25519_verify};
use crate::ledger_info::LedgerInfo;
use crate::memory::{lookup, Contents, Memory};
use crate::transaction::{
    signatures_view, DecoratedSignature, Envelope, EnvelopeView, Preconditions, SignatureView,
};
use crate::utils::{spec_tx_hash, tx_hash};
use crate::xdr::{account_ledger_key, signer_view, xdr_account_ledger_key, xdr_ledger_entry, AccountInfo, AccountView};

verus! {

/// Why a transaction was refused.
#[derive(Debug, PartialEq, Eq, Structural, Clone, Copy)]
pub enum ValidationError {
    /// No account entry is stored under the source account's key.
    AccountNotFound,
    /// The transaction's sequence number is not one above the account's.
    SequenceMismatch { got: i64, current: i64 },
    /// The account's balance is below the transaction's fee.
    InsufficientBalance { has: i64, needs: u32 },
    /// The ledger time is outside the transaction's time bounds.
    TimeBounds { now: u64, min_time: u64, max_time: u64 },
    /// No key of the account ends with a signature's hint.
    NoMatchingSigner,
    /// A signature is not 64 bytes long.
    InvalidSignatureLength,
    /// A signature does not verify under the key its hint selects.
    InvalidSignature,
    /// The signatures do not add up to a weight of one.
    InvalidWeight { got: usize },
}

/// Whether the last four bytes of a key are the hint.
pub open spec fn key_matches_hint(key: Seq<u8>, hint: Seq<u8>) -> bool {
    key.subrange(key.len() - 4, key.len() as int) == hint
}

/// The first signer from position `i` on whose key matches the hint; the
/// search gives up at the first signer that is not an Ed25519 key.
pub open spec fn signer_from(signers: Seq<Option<Seq<u8>>>, hint: Seq<u8>, i: int) -> Option<Seq<u8>>
    decreases signers.len() - i,
{
    if i < 0 || i >= signers.len() {
        None
    } else {
        match signers[i] {
            None => None,
            Some(k) => if key_matches_hint(k, hint) {
                Some(k)
            } else {
                signer_from(signers, hint, i + 1)
            },
        }
    }
}

/// The key a hint selects: the account's own key if it matches, else the
/// first matching signer.
pub open spec fn key_for_hint(account: AccountView, hint: Seq<u8>) -> Option<Seq<u8>> {
    if key_matches_hint(account.account_key, hint) {
        Some(account.account_key)
    } else {
        signer_from(account.signers, hint, 0)
    }
}

/// The outcome of checking one signature against a transaction hash.
pub open spec fn signature_outcome(account: AccountView, hash: Seq<u8>, sig: SignatureView) -> Result<(), ValidationError> {
    match key_for_hint(account, sig.hint) {
        None => Err(ValidationError::NoMatchingSigner),
        Some(key) => if sig.signature.len() != 64 {
            Err(ValidationError::InvalidSignatureLength)
        } else if ed25519_accepts(key, hash, sig.signature) {
            Ok(())
        } else {
            Err(ValidationError::InvalidSignature)
        },
    }
}

/// The outcome of checking signatures in order: the first failure, if any.
pub open spec fn signatures_outcome(account: AccountView, hash: Seq<u8>, sigs: Seq<SignatureView>) -> Result<(), ValidationError>
    decreases sigs.len(),
{
    if sigs.len() == 0 {
        Ok(())
    } else {
        match signatures_outcome(account, hash, sigs.drop_last()) {
            Err(e) => Err(e),
            Ok(_) => signature_outcome(account, hash, sigs.last()),
        }
    }
}

/// Once a prefix of the signatures fails, checking all of them fails the same way.
pub proof fn lemma_first_failure_stands(account: AccountView, hash: Seq<u8>, sigs: Seq<SignatureView>, n: int)
    requires
        0 <= n <= sigs.len(),
        signatures_outcome(account, hash, sigs.take(n)) is Err,
    ensures
        signatures_outcome(account, hash, sigs) == signatures_outcome(account, hash, sigs.take(n)),
    decreases sigs.len(),
{
    if n < sigs.len() {
        assert(sigs.drop_last().take(n) =~= sigs.take(n));
        lemma_first_failure_stands(account, hash, sigs.drop_last(), n);
    } else {
        assert(sigs.take(n) =~= sigs);
    }
}

/// The outcome of checking the time bounds of a transaction at time `now`.
pub open spec fn time_outcome(cond: Preconditions, now: u64) -> Result<(), ValidationError> {
    match cond {
        Preconditions::TimeBounds { min_time, max_time } => if now <= max_time && now >= min_time {
            Ok(())
        } else {
            Err(ValidationError::TimeBounds { now, min_time, max_time })
        },
        _ => Ok(()),
    }
}

/// The account a transaction's source refers to in the ledger state.
pub open spec fn source_account(contents: Contents, env: EnvelopeView) -> Option<AccountView> {
    match lookup(contents, xdr_account_ledger_key(env.header.source_account@)) {
        None => None,
        Some((entry, _)) => xdr_ledger_entry(entry).unwrap().account,
    }
}

/// The outcome of validating a transaction against a ledger state and
/// ledger, in the order the checks are made.
pub open spec fn validation_outcome(contents: Contents, env: EnvelopeView, ledger: LedgerInfo) -> Result<(), ValidationError> {
    let h = env.header;
    match source_account(contents, env) {
        None => Err(ValidationError::AccountNotFound),
        Some(a) => if a.seq_num + 1 != h.seq_num {
            Err(ValidationError::SequenceMismatch { got: h.seq_num, current: a.seq_num })
        } else if a.balance < h.fee {
            Err(ValidationError::InsufficientBalance { has: a.balance, needs: h.fee })
        } else if time_outcome(h.cond, ledger.timestamp) is Err {
            time_outcome(h.cond, ledger.timestamp)
        } else {
            let hash = spec_tx_hash(ledger.network_id@, env.transaction);
            match signatures_outcome(a, hash, env.signatures) {
                Err(e) => Err(e),
                Ok(_) => if env.signatures.len() != 1 {
                    Err(ValidationError::InvalidWeight { got: env.signatures.len() as usize })
                } else {
                    Ok(())
                },
            }
        },
    }
}

/// Validates transactions against the ledger state.
pub struct TxValidation {}

impl TxValidation {
    pub fn new() -> (r: TxValidation) {
        TxValidation {}
    }

    /// Validates a transaction: the source account must exist, the sequence
    /// number must be one above the account's, the balance must cover the fee,
    /// the ledger time must be within the time bounds, every signature must be
    /// made by a key of the account that its hint selects, and there must be
    /// exactly one signature.
    pub fn validate(&self, memory: &Memory, envelope: &Envelope, ledger_info: &LedgerInfo) -> (r: Result<(), ValidationError>)
        ensures
            r == validation_outcome(memory@, envelope@, *ledger_info),
    {
        let header = envelope.header();
        let signatures = envelope.signatures();
        let key = account_ledger_key(&header.source_account);
        let entry = match memory.get_account(&key) {
            Ok(Some(a)) => a,
            _ => return Err(ValidationError::AccountNotFound),
        };
        if (entry.seq_num as i128) + 1 != header.seq_num as i128 {
            return Err(ValidationError::SequenceMismatch { got: header.seq_num, current: entry.seq_num });
        }
        if entry.balance < header.fee as i64 {
            return Err(ValidationError::InsufficientBalance { has: entry.balance, needs: header.fee });
        }
        self.verify_time_conds(header.cond, ledger_info)?;
        let hash = tx_hash(envelope, ledger_info).unwrap();
        let mut weight: usize = 0;
        let ghost account = entry@;
        let ghost sigs = envelope@.signatures;
        #[verifier::loop_isolation(false)]
        while weight < signatures.len()
            invariant
                account == entry@,
                sigs == signatures_view(signatures@),
                weight <= signatures@.len(),
                signatures_outcome(account, hash@, sigs.take(weight as int)) is Ok,
            decreases signatures@.len() - weight,
        {
            let signature = &signatures[weight];
            assert(sigs[weight as int] == signature@);
            assert(sigs.take(weight + 1).drop_last() =~= sigs.take(weight as int));
            assert(sigs.take(weight + 1).last() == signature@);
            let pk = match self.get_public_key(&entry, &signature.hint) {
                Some(pk) => pk,
                None => {
                    proof {
                        lemma_first_failure_stands(account, hash@, sigs, weight + 1);
                    }
                    return Err(ValidationError::NoMatchingSigner);
                },
            };
            let checked = self.verify_decorated_signature(&hash, signature, &pk);
            if checked.is_err() {
                proof {
                    lemma_first_failure_stands(account, hash@, sigs, weight + 1);
                }
                return checked;
            }
            weight = weight + 1;
        }
        assert(sigs.take(sigs.len() as int) =~= sigs);
        if weight != 1 {
            return Err(ValidationError::InvalidWeight { got: weight });
        }
        Ok(())
    }

    /// Checks the ledger time against the time bounds, if the transaction has any.
    pub fn verify_time_conds(&self, conds: Preconditions, ledger_info: &LedgerInfo) -> (r: Result<(), ValidationError>)
        ensures
            r == time_outcome(conds, ledger_info.timestamp),
    {
        match conds {
            Preconditions::TimeBounds { min_time, max_time } => {
                let now = ledger_info.timestamp;
                if now <= max_time && now >= min_time {
                    Ok(())
                } else {
                    Err(ValidationError::TimeBounds { now, min_time, max_time })
                }
            },
            _ => Ok(()),
        }
    }

    /// The key of the account that a signature hint selects.
    pub fn get_public_key(&self, account: &AccountInfo, hint: &[u8; 4]) -> (r: Option<[u8; 32]>)
        ensures
            match r {
                Some(k) => key_for_hint(account@, hint@) == Some(k@),
                None => key_for_hint(account@, hint@) is None,
            },
    {
        if self.public_key_matches_hint(&account.account_key, hint) {
            return Some(account.account_key);
        }
        let mut i: usize = account.signers.len();
        // Walk back from the end so that each step extends the known suffix.
        let mut found: Option<[u8; 32]> = None;
        proof {
            assert(signer_from(account@.signers, hint@, i as int) is None);
        }
        while i > 0
            invariant
                i <= account.signers@.len(),
                account@.signers.len() == account.signers@.len(),
                match found {
                    Some(k) => signer_from(account@.signers, hint@, i as int) == Some(k@),
                    None => signer_from(account@.signers, hint@, i as int) is None,
                },
            decreases i,
        {
            i = i - 1;
            assert(account@.signers[i as int] == signer_view(account.signers@[i as int]));
            match account.signers[i] {
                None => {
                    found = None;
                },
                Some(k) => {
                    if self.public_key_matches_hint(&k, hint) {
                        found = Some(k);
                    }
                },
            }
        }
        found
    }

    /// Whether the last four bytes of the key are the hint.
    pub fn public_key_matches_hint(&self, public_key: &[u8; 32], hint: &[u8; 4]) -> (r: bool)
        ensures
            r == key_matches_hint(public_key@, hint@),
    {
        let matches = public_key[28] == hint[0] && public_key[29] == hint[1] && public_key[30] == hint[2]
            && public_key[31] == hint[3];
        assert(matches ==> public_key@.subrange(28, 32) =~= hint@);
        assert(public_key@.subrange(28, 32) =~= hint@ ==> public_key@.subrange(28, 32)[0] == hint@[0]);
        matches
    }

    /// Verifies a signature of the transaction hash under a public key.
    pub fn verify_decorated_signature(&self, transaction_hash: &[u8; 32], signature: &DecoratedSignature, pk: &[u8; 32]) -> (r: Result<(), ValidationError>)
        ensures
            r == (if signature.signature@.len() != 64 {
                Err(ValidationError::InvalidSignatureLength)
            } else if ed25519_accepts(pk@, transaction_hash@, signature.signature@) {
                Ok(())
            } else {
                Err(ValidationError::InvalidSignature)
            }),
    {
        if signature.signature.len() != 64 {
            return Err(ValidationError::InvalidSignatureLength);
        }
        match ed25519_verify(pk, transaction_hash, &signature.signature) {
            Ok(()) => Ok(()),
            Err(_) => Err(ValidationError::InvalidSignature),
        }
    }
}

} // verus!
