use vstd::prelude::*;
use std::collections::HashMap;

verus! {

broadcast use vstd::std_specs::hash::group_hash_axioms;

/// Why the currency collaborator refused a call.
#[derive(Clone, Copy, Debug, PartialEq, Eq, Structural)]
pub enum LedgerError {
    /// The paying account's free balance cannot cover the amount.
    InsufficientBalance,
    /// The move would leave the paying account below the existence threshold.
    WouldKillSender,
    /// The receiving account would end below the existence threshold.
    ReceiverBelowMinimum,
    /// The receiving account's balance would no longer fit the balance type.
    Overflow,
}

/// The balance the currency collaborator keeps for one account: the freely
/// spendable part and the part set aside as deposits.
#[derive(Clone, Copy, Debug, PartialEq, Eq, Structural)]
pub struct AccountData {
    pub free: u64,
    pub reserved: u64,
}

/// A model of the external currency collaborator at exactly the interface
/// the registry requires of it: a free-balance query, a deposit reserve,
/// and a transfer that keeps both parties above the existence threshold.
pub struct Ledger {
    pub accounts: HashMap<u64, AccountData>,
    pub existential_deposit: u64,
}

impl Ledger {
    /// The free balance of an account; an unknown account holds nothing.
    pub open spec fn spec_free(self, who: u64) -> u64 {
        if self.accounts@.contains_key(who) {
            self.accounts@[who].free
        } else {
            0
        }
    }

    /// The reserved balance of an account; an unknown account holds nothing.
    pub open spec fn spec_reserved(self, who: u64) -> u64 {
        if self.accounts@.contains_key(who) {
            self.accounts@[who].reserved
        } else {
            0
        }
    }

    /// Every account's total balance fits the balance type, so moving funds
    /// between the free and reserved parts can never overflow.
    pub open spec fn inv(self) -> bool {
        forall|a: u64|
            self.accounts@.contains_key(a) ==> #[trigger] self.accounts@[a].free
                + self.accounts@[a].reserved <= u64::MAX
    }

    /// The accounts other than `who` are exactly as they were in `other`.
    pub open spec fn others_unchanged(self, other: Ledger, who: u64) -> bool {
        &&& self.existential_deposit == other.existential_deposit
        &&& forall|a: u64|
            a != who ==> (self.accounts@.contains_key(a) <==> other.accounts@.contains_key(a))
        &&& forall|a: u64|
            a != who && #[trigger] self.accounts@.contains_key(a) ==> self.accounts@[a]
                == other.accounts@[a]
    }

    /// The accounts other than the two given ones are exactly as they were
    /// in `other`.
    pub open spec fn others_unchanged2(self, other: Ledger, x: u64, y: u64) -> bool {
        &&& self.existential_deposit == other.existential_deposit
        &&& forall|a: u64|
            a != x && a != y ==> (self.accounts@.contains_key(a)
                <==> other.accounts@.contains_key(a))
        &&& forall|a: u64|
            a != x && a != y && #[trigger] self.accounts@.contains_key(a) ==> self.accounts@[a]
                == other.accounts@[a]
    }

    /// When a transfer of `amount` from `from` to `to` that must keep both
    /// parties alive is accepted: the payer can cover it without dropping
    /// below the existence threshold, and the receiver ends at or above the
    /// threshold without overflowing its balance.
    pub open spec fn can_transfer_keep_alive(self, from: u64, to: u64, amount: u64) -> bool {
        if from == to {
            self.spec_free(from) >= amount
        } else {
            &&& self.spec_free(from) >= amount
            &&& self.spec_free(from) - amount >= self.existential_deposit
            &&& self.spec_free(to) + amount + self.spec_reserved(to) <= u64::MAX
            &&& self.spec_free(to) + amount >= self.existential_deposit
        }
    }

    /// An empty ledger with the given existence threshold.
    pub fn new(existential_deposit: u64) -> (r: Ledger)
        ensures
            r.inv(),
            r.existential_deposit == existential_deposit,
            forall|a: u64| !r.accounts@.contains_key(a),
    {
        Ledger { accounts: HashMap::new(), existential_deposit }
    }

    /// Endows an account with a free balance, as the host's genesis loader
    /// does before any operation runs. Any reserved part is released.
    pub fn set_balance(&mut self, who: u64, free: u64)
        requires
            old(self).inv(),
        ensures
            final(self).inv(),
            final(self).spec_free(who) == free,
            final(self).spec_reserved(who) == 0,
            final(self).others_unchanged(*old(self), who),
    {
        self.accounts.insert(who, AccountData { free, reserved: 0 });
    }

    /// The freely spendable balance of the account.
    pub fn free_balance(&self, who: u64) -> (r: u64)
        ensures
            r == self.spec_free(who),
    {
        match self.accounts.get(&who) {
            Some(data) => data.free,
            None => 0,
        }
    }

    /// The reserved balance of the account.
    pub fn reserved_balance(&self, who: u64) -> (r: u64)
        ensures
            r == self.spec_reserved(who),
    {
        match self.accounts.get(&who) {
            Some(data) => data.reserved,
            None => 0,
        }
    }

    /// Sets aside `amount` from the account's free balance as a deposit:
    /// accepted exactly when the free balance covers the amount, and then
    /// the amount moves from the free to the reserved part.
    pub fn reserve(&mut self, who: u64, amount: u64) -> (r: Result<(), LedgerError>)
        requires
            old(self).inv(),
        ensures
            final(self).inv(),
            r is Ok <==> old(self).spec_free(who) >= amount,
            match r {
                Ok(()) => {
                    &&& final(self).spec_free(who) == old(self).spec_free(who) - amount
                    &&& final(self).spec_reserved(who) == old(self).spec_reserved(who) + amount
                    &&& final(self).others_unchanged(*old(self), who)
                },
                Err(e) => {
                    &&& e == LedgerError::InsufficientBalance
                    &&& *final(self) == *old(self)
                },
            },
    {
        let free = self.free_balance(who);
        if free < amount {
            return Err(LedgerError::InsufficientBalance);
        }
        let reserved = self.reserved_balance(who);
        self.accounts.insert(who, AccountData { free: free - amount, reserved: reserved + amount });
        Ok(())
    }

    /// Moves `amount` from `from` to `to` in a mode that must not reduce
    /// either party below the existence threshold. Accepted exactly when
    /// `can_transfer_keep_alive` holds; a move to oneself leaves the ledger
    /// unchanged.
    pub fn transfer_keep_alive(&mut self, from: u64, to: u64, amount: u64) -> (r: Result<
        (),
        LedgerError,
    >)
        requires
            old(self).inv(),
        ensures
            final(self).inv(),
            r is Ok <==> old(self).can_transfer_keep_alive(from, to, amount),
            r is Err ==> *final(self) == *old(self),
            match r {
                Ok(()) => {
                    if from == to {
                        *final(self) == *old(self)
                    } else {
                        &&& final(self).spec_free(from) == old(self).spec_free(from) - amount
                        &&& final(self).spec_reserved(from) == old(self).spec_reserved(from)
                        &&& final(self).spec_free(to) == old(self).spec_free(to) + amount
                        &&& final(self).spec_reserved(to) == old(self).spec_reserved(to)
                        &&& final(self).others_unchanged2(*old(self), from, to)
                    }
                },
                Err(_) => true,
            },
    {
        let from_free = self.free_balance(from);
        if from_free < amount {
            return Err(LedgerError::InsufficientBalance);
        }
        if from == to {
            return Ok(());
        }
        if from_free - amount < self.existential_deposit {
            return Err(LedgerError::WouldKillSender);
        }
        let to_free = self.free_balance(to);
        let to_reserved = self.reserved_balance(to);
        if amount > u64::MAX - to_free || to_free + amount > u64::MAX - to_reserved {
            return Err(LedgerError::Overflow);
        }
        if to_free + amount < self.existential_deposit {
            return Err(LedgerError::ReceiverBelowMinimum);
        }
        let from_reserved = self.reserved_balance(from);
        self.accounts.insert(
            from,
            AccountData { free: from_free - amount, reserved: from_reserved },
        );
        self.accounts.insert(to, AccountData { free: to_free + amount, reserved: to_reserved });
        Ok(())
    }
}

} // verus!
