//! The invoice registry: minting of tokenized invoices gated by owner
//! self-authorization and a backend-signed risk attestation, and the one-way
//! repaid flag.
//!
//! The registry decides; the host acts. Each operation takes the facts only
//! the host can establish — the authenticated caller, the current ledger
//! time, and whether the attestation signature verified against the stored
//! backend key — and returns the new invoice id or the error that aborts the
//! operation with no state change.

use crate::AccountId;
use vstd::prelude::*;

verus! {

/// A claim on a future payment, usable as notional collateral.
#[derive(Clone, Copy, PartialEq, Eq, Structural, Debug)]
pub struct Invoice {
    pub id: u64,
    pub owner: AccountId,
    pub amount: i128,
    pub due_date: u64,
    pub is_repaid: bool,
}

/// Reasons a registry operation aborts; no failing operation changes state.
#[derive(Clone, Copy, PartialEq, Eq, Structural, Debug)]
pub enum Error {
    InvoiceNotFound,
    InvoiceExpired,
    InvalidSignature,
    AlreadyRepaid,
    Unauthorized,
}

/// `inv` with the repaid flag set; every other field stands.
pub open spec fn mark_repaid(inv: Invoice) -> Invoice {
    Invoice { is_repaid: true, ..inv }
}

/// A registry instance: the admin who may rotate the attestation key, the
/// repay policy, the stored 32-byte backend key, and every invoice it has
/// minted, held densely (the invoice with id `i` sits at index `i - 1`).
pub struct InvoiceContract {
    pub admin: AccountId,
    pub strict_repay: bool,
    pub backend_pubkey: Option<Vec<u8>>,
    pub invoices: Vec<Invoice>,
}

impl InvoiceContract {
    /// The attestation key is 32 bytes and invoice ids are the dense
    /// sequence 1, 2, 3, ...
    pub open spec fn wf(self) -> bool {
        &&& (self.backend_pubkey matches Some(k) ==> k@.len() == 32)
        &&& forall|i: int|
            0 <= i < self.invoices@.len() ==> (#[trigger] self.invoices@[i]).id == i + 1
    }

    /// A fresh registry. `admin` alone may rotate the backend key;
    /// `strict_repay` picks the repay policy: strict registries refuse to
    /// repay an invoice twice, lenient ones take the second repay as a
    /// silent no-op.
    pub fn new(admin: AccountId, strict_repay: bool) -> (r: InvoiceContract)
        ensures
            r.wf(),
            r.admin == admin,
            r.strict_repay == strict_repay,
            r.backend_pubkey is None,
            r.invoices@.len() == 0,
    {
        InvoiceContract { admin, strict_repay, backend_pubkey: None, invoices: Vec::new() }
    }

    pub open spec fn set_backend_pubkey_outcome(self, caller: AccountId) -> Result<(), Error> {
        if caller != self.admin {
            Err(Error::Unauthorized)
        } else {
            Ok(())
        }
    }

    /// Store the 32-byte key mint attestations are verified against; only
    /// the registry's admin may set it.
    pub fn set_backend_pubkey(&mut self, caller: AccountId, pubkey: Vec<u8>) -> (r: Result<
        (),
        Error,
    >)
        requires
            old(self).wf(),
            pubkey@.len() == 32,
        ensures
            final(self).wf(),
            r == old(self).set_backend_pubkey_outcome(caller),
            r is Ok ==> final(self).backend_pubkey == Some(pubkey),
            r is Err ==> *final(self) == *old(self),
            final(self).admin == old(self).admin,
            final(self).strict_repay == old(self).strict_repay,
            final(self).invoices == old(self).invoices,
    {
        if caller != self.admin {
            return Err(Error::Unauthorized);
        }
        self.backend_pubkey = Some(pubkey);
        Ok(())
    }

    pub open spec fn has_invoice(self, id: u64) -> bool {
        1 <= id && id <= self.invoices@.len()
    }

    pub open spec fn invoice_at(self, id: u64) -> Invoice
        recommends
            self.has_invoice(id),
    {
        self.invoices@[id - 1]
    }

    pub open spec fn mint_outcome(
        self,
        caller: AccountId,
        owner: AccountId,
        due_date: u64,
        sig_valid: bool,
        now: u64,
    ) -> Result<u64, Error> {
        if caller != owner {
            Err(Error::Unauthorized)
        } else if due_date <= now {
            Err(Error::InvoiceExpired)
        } else if !sig_valid {
            Err(Error::InvalidSignature)
        } else {
            Ok((self.invoices@.len() + 1) as u64)
        }
    }

    /// The record a successful `mint` appends: the next dense id, not yet
    /// repaid.
    pub open spec fn minted_invoice(
        self,
        owner: AccountId,
        amount: i128,
        due_date: u64,
    ) -> Invoice {
        Invoice {
            id: (self.invoices@.len() + 1) as u64,
            owner,
            amount,
            due_date,
            is_repaid: false,
        }
    }

    /// Mint an invoice for `owner` over `amount`, due at `due_date`.
    /// `sig_valid` is the host's verdict on the backend attestation: whether
    /// the submitted signature verifies, under the stored backend key,
    /// against the canonical encoding of `(owner, amount, risk_score)` (see
    /// [`crate::attest::attestation_message`]). Minting fails on a due date
    /// at or before `now`, on a failed attestation, and on a caller other
    /// than `owner`, each with no state change; otherwise the invoice is
    /// recorded and its new id returned.
    pub fn mint(
        &mut self,
        caller: AccountId,
        owner: AccountId,
        amount: i128,
        due_date: u64,
        sig_valid: bool,
        now: u64,
    ) -> (r: Result<u64, Error>)
        requires
            old(self).wf(),
            old(self).invoices@.len() < u64::MAX,
        ensures
            final(self).wf(),
            r == old(self).mint_outcome(caller, owner, due_date, sig_valid, now),
            r is Ok ==> final(self).invoices@ == old(self).invoices@.push(
                old(self).minted_invoice(owner, amount, due_date),
            ),
            r is Err ==> *final(self) == *old(self),
            final(self).admin == old(self).admin,
            final(self).strict_repay == old(self).strict_repay,
            final(self).backend_pubkey == old(self).backend_pubkey,
    {
        if caller != owner {
            return Err(Error::Unauthorized);
        }
        if due_date <= now {
            return Err(Error::InvoiceExpired);
        }
        if !sig_valid {
            return Err(Error::InvalidSignature);
        }
        let id: u64 = (self.invoices.len() as u64) + 1;
        let invoice = Invoice { id, owner, amount, due_date, is_repaid: false };
        self.invoices.push(invoice);
        Ok(id)
    }

    pub open spec fn spec_get_invoice(self, id: u64) -> Option<Invoice> {
        if self.has_invoice(id) {
            Some(self.invoice_at(id))
        } else {
            None
        }
    }

    /// The invoice stored under `id`, if any.
    pub fn get_invoice(&self, id: u64) -> (r: Option<Invoice>)
        ensures
            r == self.spec_get_invoice(id),
    {
        if 1 <= id && id <= (self.invoices.len() as u64) {
            Some(self.invoices[(id - 1) as usize])
        } else {
            None
        }
    }

    pub open spec fn repay_outcome(self, caller: AccountId, id: u64) -> Result<(), Error> {
        if !self.has_invoice(id) {
            Err(Error::InvoiceNotFound)
        } else if caller != self.invoice_at(id).owner {
            Err(Error::Unauthorized)
        } else if self.strict_repay && self.invoice_at(id).is_repaid {
            Err(Error::AlreadyRepaid)
        } else {
            Ok(())
        }
    }

    /// Mark invoice `id` repaid; only its owner may. Under the strict
    /// policy a second repay fails with `AlreadyRepaid`; under the lenient
    /// one it succeeds and leaves the already-set flag standing. Either
    /// way the flag never reverts.
    pub fn repay(&mut self, caller: AccountId, id: u64) -> (r: Result<(), Error>)
        requires
            old(self).wf(),
        ensures
            final(self).wf(),
            r == old(self).repay_outcome(caller, id),
            r is Ok ==> final(self).invoices@ == old(self).invoices@.update(
                id - 1,
                mark_repaid(old(self).invoice_at(id)),
            ),
            r is Err ==> *final(self) == *old(self),
            final(self).admin == old(self).admin,
            final(self).strict_repay == old(self).strict_repay,
            final(self).backend_pubkey == old(self).backend_pubkey,
            final(self).invoices@.len() == old(self).invoices@.len(),
    {
        if id < 1 || (self.invoices.len() as u64) < id {
            return Err(Error::InvoiceNotFound);
        }
        let idx: usize = (id - 1) as usize;
        let invoice = self.invoices[idx];
        if caller != invoice.owner {
            return Err(Error::Unauthorized);
        }
        if self.strict_repay && invoice.is_repaid {
            return Err(Error::AlreadyRepaid);
        }
        self.invoices[idx] = Invoice { is_repaid: true, ..invoice };
        Ok(())
    }
}

/// Law: invoice ids are the dense sequence 1, 2, 3, ... — strictly
/// increasing, unique, and starting at 1, over any run of successful mints.
pub proof fn lemma_invoice_ids_sequential(r: InvoiceContract)
    requires
        r.wf(),
    ensures
        r.invoices@.len() > 0 ==> r.invoices@[0].id == 1,
        forall|i: int, j: int|
            0 <= i < j < r.invoices@.len() ==> (#[trigger] r.invoices@[i]).id < (
            #[trigger] r.invoices@[j]).id,
{
}

/// Law: the repaid flag is one-way. Whatever `repay` returns, an invoice
/// repaid before the call is still repaid after it.
pub proof fn lemma_repaid_invoice_stays_repaid(
    pre: InvoiceContract,
    post: InvoiceContract,
    caller: AccountId,
    repaid_id: u64,
    id: u64,
)
    requires
        pre.wf(),
        pre.has_invoice(repaid_id),
        pre.invoice_at(repaid_id).is_repaid,
        pre.repay_outcome(caller, id) is Ok ==> post.invoices@ == pre.invoices@.update(
            id - 1,
            mark_repaid(pre.invoice_at(id)),
        ),
        pre.repay_outcome(caller, id) is Err ==> post.invoices@ == pre.invoices@,
    ensures
        post.has_invoice(repaid_id) ==> post.invoice_at(repaid_id).is_repaid,
{
}

} // verus!
