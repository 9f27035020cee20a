//! Settlement of a pending escrow by a taker: the taker pays the maker in
//! asset B, the vault releases its asset A to the taker, and the vault and the
//! escrow record are closed with their storage allowance returned to the maker.
//!
//! A settlement either takes its whole effect or leaves every account as it
//! was: each check runs before the first change.

use vstd::prelude::*;
use crate::accounts::{CloseAccount, Escrow, Mint, TokenAccount, TransferChecked};
use crate::derivation::{derives, escrow_seeds, escrow_signer_seeds, seeds_view, verify_escrow_authority};
use crate::keys::keys_equal;

verus! {

/// Why a settlement or a cancellation was refused.
#[derive(Clone, Copy, Debug, PartialEq, Eq, Structural)]
pub enum ErrorCode {
    /// The taker's asset-B balance is below the amount that the maker asks for.
    InsufficientFunds,
    /// The escrow record does not exist, or was retired already.
    RecordNotFound,
    /// The taker is the maker, or the escrow record itself.
    SelfSettlement,
    /// The supplied maker is not the record's maker.
    MakerMismatch,
    /// The supplied asset types are not the record's.
    MintMismatch,
    /// A token account holds another asset or belongs to another party.
    TokenAccountMismatch,
    /// The vault is missing, holds another asset or is not the record's.
    VaultMismatch,
    /// The record's stored parameters do not reproduce its address.
    DerivationMismatch,
    /// A balance would exceed the largest amount an account can hold.
    Overflow,
}

/// The accounts of one settlement attempt.
#[derive(Clone, Copy, Debug, PartialEq, Eq)]
pub struct Take {
    pub program_id: [u8; 32],
    pub taker: [u8; 32],
    pub maker: [u8; 32],
    /// The maker's own balance of storage allowance.
    pub maker_lamports: u64,
    pub mint_a: Mint,
    pub mint_b: Mint,
    pub taker_ata_a: TokenAccount,
    pub taker_ata_b: TokenAccount,
    pub escrow_address: [u8; 32],
    /// The escrow record; `None` once it is retired.
    pub escrow: Option<Escrow>,
    /// The storage allowance held by the escrow record.
    pub escrow_lamports: u64,
    /// The vault; `None` once it is closed.
    pub vault: Option<TokenAccount>,
    pub maker_ata_b: TokenAccount,
}

/// What a settlement hands to the token program, in order.
#[derive(Clone, Debug, PartialEq, Eq)]
pub struct Settlement {
    pub payment: TransferChecked,
    pub release: TransferChecked,
    pub close_vault: CloseAccount,
}

pub open spec fn max_amount() -> int {
    u64::MAX as int
}

/// Whether `acct` holds the asset `mint` for the authority `owner`.
pub open spec fn holds(acct: TokenAccount, mint: Seq<u8>, owner: Seq<u8>) -> bool {
    acct.mint@ == mint && acct.owner@ == owner
}

pub open spec fn outcome(e: Option<ErrorCode>) -> Result<(), ErrorCode> {
    match e {
        Some(e) => Err(e),
        None => Ok(()),
    }
}

/// Whether `acct` holds the asset `mint` for the authority `owner`.
pub fn token_account_holds(acct: &TokenAccount, mint: &[u8; 32], owner: &[u8; 32]) -> (r: bool)
    ensures
        r == holds(*acct, mint@, owner@),
{
    keys_equal(&acct.mint, mint) && keys_equal(&acct.owner, owner)
}

impl Take {
    /// The first binding between the supplied accounts and the escrow record
    /// that this attempt breaks, in the order in which they are checked.
    pub open spec fn binding_error(self) -> Option<ErrorCode> {
        if self.escrow is None {
            Some(ErrorCode::RecordNotFound)
        } else if self.taker@ == self.maker@ || self.taker@ == self.escrow_address@ {
            Some(ErrorCode::SelfSettlement)
        } else if self.escrow.unwrap().maker@ != self.maker@ {
            Some(ErrorCode::MakerMismatch)
        } else if self.escrow.unwrap().mint_a@ != self.mint_a.key@
            || self.escrow.unwrap().mint_b@ != self.mint_b.key@ {
            Some(ErrorCode::MintMismatch)
        } else if !holds(self.taker_ata_a, self.mint_a.key@, self.taker@)
            || !holds(self.taker_ata_b, self.mint_b.key@, self.taker@)
            || !holds(self.maker_ata_b, self.mint_b.key@, self.maker@) {
            Some(ErrorCode::TokenAccountMismatch)
        } else if self.vault is None || !holds(self.vault.unwrap(), self.mint_a.key@, self.escrow_address@) {
            Some(ErrorCode::VaultMismatch)
        } else if !derives(
            self.escrow.unwrap().maker@,
            self.escrow.unwrap().seed,
            self.escrow.unwrap().bump,
            self.program_id@,
            self.escrow_address@,
        ) {
            Some(ErrorCode::DerivationMismatch)
        } else {
            None
        }
    }

    /// Checks every binding between the supplied accounts and the escrow record,
    /// the derivation of the record's address included.
    pub fn validate(&self) -> (r: Result<(), ErrorCode>)
        ensures
            r == outcome(self.binding_error()),
    {
        let e = match self.escrow {
            Some(e) => e,
            None => return Err(ErrorCode::RecordNotFound),
        };
        if keys_equal(&self.taker, &self.maker) || keys_equal(&self.taker, &self.escrow_address) {
            return Err(ErrorCode::SelfSettlement);
        }
        if !keys_equal(&e.maker, &self.maker) {
            return Err(ErrorCode::MakerMismatch);
        }
        if !keys_equal(&e.mint_a, &self.mint_a.key) || !keys_equal(&e.mint_b, &self.mint_b.key) {
            return Err(ErrorCode::MintMismatch);
        }
        if !token_account_holds(&self.taker_ata_a, &self.mint_a.key, &self.taker)
            || !token_account_holds(&self.taker_ata_b, &self.mint_b.key, &self.taker)
            || !token_account_holds(&self.maker_ata_b, &self.mint_b.key, &self.maker) {
            return Err(ErrorCode::TokenAccountMismatch);
        }
        match self.vault {
            Some(v) => {
                if !token_account_holds(&v, &self.mint_a.key, &self.escrow_address) {
                    return Err(ErrorCode::VaultMismatch);
                }
            },
            None => return Err(ErrorCode::VaultMismatch),
        }
        if !verify_escrow_authority(&e.maker, e.seed, e.bump, &self.program_id, &self.escrow_address) {
            return Err(ErrorCode::DerivationMismatch);
        }
        Ok(())
    }

    /// Why the payment of asset B to the maker cannot be made, if it cannot.
    pub open spec fn deposit_error(self) -> Option<ErrorCode> {
        if self.escrow is None {
            Some(ErrorCode::RecordNotFound)
        } else if self.taker_ata_b.amount < self.escrow.unwrap().receive {
            Some(ErrorCode::InsufficientFunds)
        } else if self.maker_ata_b.amount + self.escrow.unwrap().receive > max_amount() {
            Some(ErrorCode::Overflow)
        } else {
            None
        }
    }

    /// The accounts once the taker has paid the maker `receive` of asset B.
    pub open spec fn after_deposit(self) -> Take {
        let receive = self.escrow.unwrap().receive;
        Take {
            taker_ata_b: TokenAccount { amount: (self.taker_ata_b.amount - receive) as u64, ..self.taker_ata_b },
            maker_ata_b: TokenAccount { amount: (self.maker_ata_b.amount + receive) as u64, ..self.maker_ata_b },
            ..self
        }
    }

    /// The transfer of the payment, signed by the taker.
    pub open spec fn is_payment(self, t: TransferChecked) -> bool {
        &&& t.from@ == self.taker_ata_b.key@
        &&& t.mint@ == self.mint_b.key@
        &&& t.to@ == self.maker_ata_b.key@
        &&& t.authority@ == self.taker@
        &&& t.amount == self.escrow.unwrap().receive
        &&& t.decimals == self.mint_b.decimals
        &&& t.signer_seeds@.len() == 0
    }

    /// Sends the maker the amount of asset B that the record asks for, out of
    /// the taker's asset-B account; refuses with `InsufficientFunds`, and
    /// changes nothing, where that account holds less.
    pub fn deposit(&mut self) -> (r: Result<TransferChecked, ErrorCode>)
        ensures
            r is Ok <==> old(self).deposit_error() is None,
            match r {
                Ok(t) => *final(self) == old(self).after_deposit() && old(self).is_payment(t),
                Err(e) => *final(self) == *old(self) && old(self).deposit_error() == Some(e),
            },
    {
        let receive = match self.escrow {
            Some(e) => e.receive,
            None => return Err(ErrorCode::RecordNotFound),
        };
        if self.taker_ata_b.amount < receive {
            return Err(ErrorCode::InsufficientFunds);
        }
        if self.maker_ata_b.amount > u64::MAX - receive {
            return Err(ErrorCode::Overflow);
        }
        self.taker_ata_b.amount = self.taker_ata_b.amount - receive;
        self.maker_ata_b.amount = self.maker_ata_b.amount + receive;
        Ok(TransferChecked {
            from: self.taker_ata_b.key,
            mint: self.mint_b.key,
            to: self.maker_ata_b.key,
            authority: self.taker,
            amount: receive,
            decimals: self.mint_b.decimals,
            signer_seeds: Vec::new(),
        })
    }

    /// Why the vault cannot be emptied to the taker and closed, if it cannot.
    pub open spec fn withdraw_error(self) -> Option<ErrorCode> {
        if self.escrow is None {
            Some(ErrorCode::RecordNotFound)
        } else if self.vault is None {
            Some(ErrorCode::VaultMismatch)
        } else if !derives(
            self.escrow.unwrap().maker@,
            self.escrow.unwrap().seed,
            self.escrow.unwrap().bump,
            self.program_id@,
            self.escrow_address@,
        ) {
            Some(ErrorCode::DerivationMismatch)
        } else if self.taker_ata_a.amount + self.vault.unwrap().amount > max_amount()
            || self.maker_lamports + self.vault.unwrap().lamports > max_amount() {
            Some(ErrorCode::Overflow)
        } else {
            None
        }
    }

    /// The accounts once the vault has released its whole balance to the taker
    /// and been closed, its storage allowance going to the maker.
    pub open spec fn after_withdraw(self) -> Take {
        let v = self.vault.unwrap();
        Take {
            taker_ata_a: TokenAccount { amount: (self.taker_ata_a.amount + v.amount) as u64, ..self.taker_ata_a },
            maker_lamports: (self.maker_lamports + v.lamports) as u64,
            vault: None,
            ..self
        }
    }

    /// The seeds of the record's derived authority, as stored in the record.
    pub open spec fn authority_seeds(self) -> Seq<Seq<u8>> {
        escrow_seeds(self.escrow.unwrap().maker@, self.escrow.unwrap().seed, self.escrow.unwrap().bump)
    }

    /// The transfer of the vault's whole balance to the taker, signed by the
    /// record's derived authority.
    pub open spec fn is_release(self, t: TransferChecked) -> bool {
        &&& t.from@ == self.vault.unwrap().key@
        &&& t.mint@ == self.mint_a.key@
        &&& t.to@ == self.taker_ata_a.key@
        &&& t.authority@ == self.escrow_address@
        &&& t.amount == self.vault.unwrap().amount
        &&& t.decimals == self.mint_a.decimals
        &&& seeds_view(t.signer_seeds@) == self.authority_seeds()
    }

    /// The closing of the vault to the maker, signed by the record's derived authority.
    pub open spec fn is_vault_close(self, c: CloseAccount) -> bool {
        &&& c.account@ == self.vault.unwrap().key@
        &&& c.destination@ == self.maker@
        &&& c.authority@ == self.escrow_address@
        &&& seeds_view(c.signer_seeds@) == self.authority_seeds()
    }

    /// Sends the vault's whole balance of asset A to the taker and closes the
    /// vault, both under the record's derived authority; refuses, and changes
    /// nothing, where the record's stored parameters do not reproduce its address.
    pub fn withdraw_and_close_vault(&mut self) -> (r: Result<(TransferChecked, CloseAccount), ErrorCode>)
        ensures
            r is Ok <==> old(self).withdraw_error() is None,
            match r {
                Ok((t, c)) => *final(self) == old(self).after_withdraw() && old(self).is_release(t)
                    && old(self).is_vault_close(c),
                Err(e) => *final(self) == *old(self) && old(self).withdraw_error() == Some(e),
            },
    {
        let e = match self.escrow {
            Some(e) => e,
            None => return Err(ErrorCode::RecordNotFound),
        };
        let v = match self.vault {
            Some(v) => v,
            None => return Err(ErrorCode::VaultMismatch),
        };
        if !verify_escrow_authority(&e.maker, e.seed, e.bump, &self.program_id, &self.escrow_address) {
            return Err(ErrorCode::DerivationMismatch);
        }
        if self.taker_ata_a.amount > u64::MAX - v.amount || self.maker_lamports > u64::MAX - v.lamports {
            return Err(ErrorCode::Overflow);
        }
        let release = TransferChecked {
            from: v.key,
            mint: self.mint_a.key,
            to: self.taker_ata_a.key,
            authority: self.escrow_address,
            amount: v.amount,
            decimals: self.mint_a.decimals,
            signer_seeds: escrow_signer_seeds(&e.maker, e.seed, e.bump),
        };
        self.taker_ata_a.amount = self.taker_ata_a.amount + v.amount;
        let close = CloseAccount {
            account: v.key,
            destination: self.maker,
            authority: self.escrow_address,
            signer_seeds: escrow_signer_seeds(&e.maker, e.seed, e.bump),
        };
        self.maker_lamports = self.maker_lamports + v.lamports;
        self.vault = None;
        Ok((release, close))
    }

    /// Why the escrow record cannot be closed, if it cannot.
    pub open spec fn close_error(self) -> Option<ErrorCode> {
        if self.escrow is None {
            Some(ErrorCode::RecordNotFound)
        } else if self.maker_lamports + self.escrow_lamports > max_amount() {
            Some(ErrorCode::Overflow)
        } else {
            None
        }
    }

    /// The accounts once the escrow record is retired, its storage allowance
    /// going to the maker.
    pub open spec fn after_close(self) -> Take {
        Take {
            maker_lamports: (self.maker_lamports + self.escrow_lamports) as u64,
            escrow: None,
            escrow_lamports: 0,
            ..self
        }
    }

    /// Retires the escrow record and returns its storage allowance to the maker,
    /// whoever settles.
    pub fn close_escrow(&mut self) -> (r: Result<(), ErrorCode>)
        ensures
            r == outcome(old(self).close_error()),
            r is Ok ==> *final(self) == old(self).after_close(),
            r is Err ==> *final(self) == *old(self),
    {
        if self.escrow.is_none() {
            return Err(ErrorCode::RecordNotFound);
        }
        if self.maker_lamports > u64::MAX - self.escrow_lamports {
            return Err(ErrorCode::Overflow);
        }
        self.maker_lamports = self.maker_lamports + self.escrow_lamports;
        self.escrow_lamports = 0;
        self.escrow = None;
        Ok(())
    }

    /// Why this settlement attempt is refused, if it is: a broken binding
    /// first, then a short asset-B balance, then a balance that would overflow.
    pub open spec fn settle_error(self) -> Option<ErrorCode> {
        match self.binding_error() {
            Some(e) => Some(e),
            None => {
                let receive = self.escrow.unwrap().receive;
                let v = self.vault.unwrap();
                if self.taker_ata_b.amount < receive {
                    Some(ErrorCode::InsufficientFunds)
                } else if self.maker_ata_b.amount + receive > max_amount()
                    || self.taker_ata_a.amount + v.amount > max_amount()
                    || self.maker_lamports + v.lamports + self.escrow_lamports > max_amount() {
                    Some(ErrorCode::Overflow)
                } else {
                    None
                }
            },
        }
    }

    /// The accounts once the settlement has taken its whole effect.
    pub open spec fn after_settlement(self) -> Take {
        self.after_deposit().after_withdraw().after_close()
    }

    /// Settles the trade: checks every binding, then pays the maker the amount
    /// of asset B that the record asks for, releases the vault's whole balance
    /// of asset A to the taker, closes the vault and retires the record, their
    /// storage allowance going to the maker. Either all of it happens or,
    /// where the attempt is refused, nothing changes.
    pub fn settle(&mut self) -> (r: Result<Settlement, ErrorCode>)
        ensures
            r is Ok <==> old(self).settle_error() is None,
            match r {
                Ok(st) => *final(self) == old(self).after_settlement()
                    && old(self).is_payment(st.payment)
                    && old(self).is_release(st.release)
                    && old(self).is_vault_close(st.close_vault),
                Err(e) => *final(self) == *old(self) && old(self).settle_error() == Some(e),
            },
            r is Ok ==> {
                &&& final(self).maker_ata_b.amount == old(self).maker_ata_b.amount + old(self).escrow.unwrap().receive
                &&& final(self).taker_ata_b.amount == old(self).taker_ata_b.amount - old(self).escrow.unwrap().receive
                &&& final(self).taker_ata_a.amount == old(self).taker_ata_a.amount + old(self).vault.unwrap().amount
                &&& final(self).vault is None
                &&& final(self).escrow is None
            },
            old(self).binding_error() is None && old(self).taker_ata_b.amount < old(self).escrow.unwrap().receive
                ==> r == Err::<Settlement, ErrorCode>(ErrorCode::InsufficientFunds),
            old(self).binding_error() is Some ==> r is Err,
    {
        match self.validate() {
            Ok(()) => {},
            Err(e) => return Err(e),
        }
        let (receive, v) = match (self.escrow, self.vault) {
            (Some(e), Some(v)) => (e.receive, v),
            _ => return Err(ErrorCode::RecordNotFound),
        };
        if self.taker_ata_b.amount < receive {
            return Err(ErrorCode::InsufficientFunds);
        }
        if self.maker_ata_b.amount > u64::MAX - receive || self.taker_ata_a.amount > u64::MAX - v.amount
            || self.maker_lamports > u64::MAX - v.lamports
            || self.maker_lamports + v.lamports > u64::MAX - self.escrow_lamports {
            return Err(ErrorCode::Overflow);
        }
        let payment = match self.deposit() {
            Ok(t) => t,
            Err(e) => return Err(e),
        };
        let (release, close_vault) = match self.withdraw_and_close_vault() {
            Ok(p) => p,
            Err(e) => return Err(e),
        };
        match self.close_escrow() {
            Ok(()) => {},
            Err(e) => return Err(e),
        }
        Ok(Settlement { payment, release, close_vault })
    }

    /// Why the maker's cancellation is refused, if it is, where `refund_to` is
    /// the maker's asset-A account.
    pub open spec fn cancel_error(self, refund_to: TokenAccount) -> Option<ErrorCode> {
        if self.escrow is None {
            Some(ErrorCode::RecordNotFound)
        } else if self.escrow.unwrap().maker@ != self.maker@ {
            Some(ErrorCode::MakerMismatch)
        } else if self.escrow.unwrap().mint_a@ != self.mint_a.key@ {
            Some(ErrorCode::MintMismatch)
        } else if !holds(refund_to, self.mint_a.key@, self.maker@) {
            Some(ErrorCode::TokenAccountMismatch)
        } else if self.vault is None || !holds(self.vault.unwrap(), self.mint_a.key@, self.escrow_address@) {
            Some(ErrorCode::VaultMismatch)
        } else if !derives(
            self.escrow.unwrap().maker@,
            self.escrow.unwrap().seed,
            self.escrow.unwrap().bump,
            self.program_id@,
            self.escrow_address@,
        ) {
            Some(ErrorCode::DerivationMismatch)
        } else if refund_to.amount + self.vault.unwrap().amount > max_amount()
            || self.maker_lamports + self.vault.unwrap().lamports + self.escrow_lamports > max_amount() {
            Some(ErrorCode::Overflow)
        } else {
            None
        }
    }

    /// The accounts once the maker has cancelled: the vault and the record are
    /// gone and their storage allowance has gone to the maker.
    pub open spec fn after_cancel(self) -> Take {
        Take {
            maker_lamports: (self.maker_lamports + self.vault.unwrap().lamports + self.escrow_lamports) as u64,
            vault: None,
            escrow: None,
            escrow_lamports: 0,
            ..self
        }
    }

    /// Cancels the trade for the maker: the vault's whole balance of asset A
    /// returns to `refund_to`, the vault is closed and the record retired.
    /// Either all of it happens or nothing changes.
    pub fn cancel(&mut self, refund_to: &mut TokenAccount) -> (r: Result<(TransferChecked, CloseAccount), ErrorCode>)
        ensures
            r is Ok <==> old(self).cancel_error(*old(refund_to)) is None,
            match r {
                Ok((t, c)) => {
                    &&& *final(self) == old(self).after_cancel()
                    &&& final(refund_to).amount == old(refund_to).amount + old(self).vault.unwrap().amount
                    &&& *final(refund_to) == (TokenAccount { amount: final(refund_to).amount, ..*old(refund_to) })
                    &&& t.from@ == old(self).vault.unwrap().key@
                    &&& t.to@ == old(refund_to).key@
                    &&& t.amount == old(self).vault.unwrap().amount
                    &&& t.authority@ == old(self).escrow_address@
                    &&& seeds_view(t.signer_seeds@) == old(self).authority_seeds()
                    &&& old(self).is_vault_close(c)
                },
                Err(e) => {
                    &&& *final(self) == *old(self)
                    &&& *final(refund_to) == *old(refund_to)
                    &&& old(self).cancel_error(*old(refund_to)) == Some(e)
                },
            },
    {
        let e = match self.escrow {
            Some(e) => e,
            None => return Err(ErrorCode::RecordNotFound),
        };
        if !keys_equal(&e.maker, &self.maker) {
            return Err(ErrorCode::MakerMismatch);
        }
        if !keys_equal(&e.mint_a, &self.mint_a.key) {
            return Err(ErrorCode::MintMismatch);
        }
        if !token_account_holds(refund_to, &self.mint_a.key, &self.maker) {
            return Err(ErrorCode::TokenAccountMismatch);
        }
        let v = match self.vault {
            Some(v) => v,
            None => return Err(ErrorCode::VaultMismatch),
        };
        if !token_account_holds(&v, &self.mint_a.key, &self.escrow_address) {
            return Err(ErrorCode::VaultMismatch);
        }
        if !verify_escrow_authority(&e.maker, e.seed, e.bump, &self.program_id, &self.escrow_address) {
            return Err(ErrorCode::DerivationMismatch);
        }
        if refund_to.amount > u64::MAX - v.amount || self.maker_lamports > u64::MAX - v.lamports
            || self.maker_lamports + v.lamports > u64::MAX - self.escrow_lamports {
            return Err(ErrorCode::Overflow);
        }
        let refund = TransferChecked {
            from: v.key,
            mint: self.mint_a.key,
            to: refund_to.key,
            authority: self.escrow_address,
            amount: v.amount,
            decimals: self.mint_a.decimals,
            signer_seeds: escrow_signer_seeds(&e.maker, e.seed, e.bump),
        };
        let close = CloseAccount {
            account: v.key,
            destination: self.maker,
            authority: self.escrow_address,
            signer_seeds: escrow_signer_seeds(&e.maker, e.seed, e.bump),
        };
        refund_to.amount = refund_to.amount + v.amount;
        self.maker_lamports = self.maker_lamports + v.lamports + self.escrow_lamports;
        self.vault = None;
        self.escrow = None;
        self.escrow_lamports = 0;
        Ok((refund, close))
    }
}

/// Settlement and cancellation are terminal and exclude each other: once
/// either has succeeded on a pending record, the record is retired and a
/// second settlement or cancellation of it is refused with `RecordNotFound`.
pub proof fn lemma_terminal_transitions_exclusive(s: Take, refund_to: TokenAccount, later_refund_to: TokenAccount)
    ensures
        s.settle_error() is None ==> {
            &&& s.escrow is Some
            &&& s.after_settlement().settle_error() == Some(ErrorCode::RecordNotFound)
            &&& s.after_settlement().cancel_error(later_refund_to) == Some(ErrorCode::RecordNotFound)
        },
        s.cancel_error(refund_to) is None ==> {
            &&& s.escrow is Some
            &&& s.after_cancel().settle_error() == Some(ErrorCode::RecordNotFound)
            &&& s.after_cancel().cancel_error(later_refund_to) == Some(ErrorCode::RecordNotFound)
        },
{
}

} // verus!
