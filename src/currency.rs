//! Free and reserved balances of accounts, with reserve, unreserve and
//! transfer operations.
use std::collections::HashMap;
use vstd::prelude::*;

verus! {

/// An account's identifier.
pub type AccountId = u64;

/// An amount of currency.
pub type Balance = u64;

/// The balances held by one account.
#[derive(Clone, Copy, Debug, PartialEq, Eq, Structural)]
pub struct AccountData {
    pub free: Balance,
    pub reserved: Balance,
}

/// Why a currency operation was refused.
#[derive(Clone, Copy, Debug, PartialEq, Eq, Structural)]
pub enum CurrencyError {
    /// The free balance does not cover the amount.
    InsufficientBalance,
    /// The transfer would leave the source account below the existential deposit.
    KeepAlive,
    /// The destination account would hold less than the existential deposit.
    ExistentialDeposit,
    /// A balance would exceed the largest representable amount.
    Overflow,
}

/// The balances of every account that has ever held funds.
pub struct Ledger {
    /// The smallest total balance an account must keep to stay alive.
    pub existential_deposit: Balance,
    pub accounts: HashMap<AccountId, AccountData>,
}

/// The balances of `who` in `m`; an unknown account holds nothing.
pub open spec fn account_of(m: Map<AccountId, AccountData>, who: AccountId) -> AccountData {
    if m.contains_key(who) {
        m[who]
    } else {
        AccountData { free: 0, reserved: 0 }
    }
}

/// Whether `amount` can move from the free to the reserved balance of `who`.
pub open spec fn can_reserve(m: Map<AccountId, AccountData>, who: AccountId, amount: Balance) -> bool {
    &&& account_of(m, who).free >= amount
    &&& account_of(m, who).reserved + amount <= u64::MAX
}

/// The balances after `amount` moved from the free to the reserved balance of `who`.
pub open spec fn reserved_into(m: Map<AccountId, AccountData>, who: AccountId, amount: Balance) -> Map<
    AccountId,
    AccountData,
> {
    let a = account_of(m, who);
    m.insert(
        who,
        AccountData {
            free: (a.free - amount) as u64,
            reserved: (a.reserved + amount) as u64,
        },
    )
}

/// The part of `amount` that `unreserve` actually releases: at most what is reserved.
pub open spec fn released(m: Map<AccountId, AccountData>, who: AccountId, amount: Balance) -> Balance {
    if account_of(m, who).reserved < amount {
        account_of(m, who).reserved
    } else {
        amount
    }
}

/// The balances after up to `amount` of the reserved balance of `who` went back
/// to the free balance; the free balance saturates at the largest amount.
pub open spec fn unreserved_from(m: Map<AccountId, AccountData>, who: AccountId, amount: Balance) -> Map<
    AccountId,
    AccountData,
> {
    let a = account_of(m, who);
    let actual = released(m, who, amount);
    let free = if a.free + actual > u64::MAX {
        u64::MAX
    } else {
        (a.free + actual) as u64
    };
    m.insert(who, AccountData { free, reserved: (a.reserved - actual) as u64 })
}

/// What a transfer of `amount` from `from` to `to` yields on the balances `m`
/// and the existential deposit `ed`: `None` when it goes through.
pub open spec fn transfer_error(
    m: Map<AccountId, AccountData>,
    ed: Balance,
    from: AccountId,
    to: AccountId,
    amount: Balance,
    keep_alive: bool,
) -> Option<CurrencyError> {
    let f = account_of(m, from);
    let t = account_of(m, to);
    if amount == 0 || from == to {
        None
    } else if f.free < amount {
        Some(CurrencyError::InsufficientBalance)
    } else if keep_alive && f.free - amount + f.reserved < ed {
        Some(CurrencyError::KeepAlive)
    } else if t.free + amount > u64::MAX {
        Some(CurrencyError::Overflow)
    } else if t.free + amount + t.reserved < ed {
        Some(CurrencyError::ExistentialDeposit)
    } else {
        None
    }
}

/// The balances after a transfer of `amount` from `from` to `to` went through.
pub open spec fn transferred(m: Map<AccountId, AccountData>, from: AccountId, to: AccountId, amount: Balance) -> Map<
    AccountId,
    AccountData,
> {
    if amount == 0 || from == to {
        m
    } else {
        let f = account_of(m, from);
        let m1 = m.insert(from, AccountData { free: (f.free - amount) as u64, reserved: f.reserved });
        let t = account_of(m1, to);
        m1.insert(to, AccountData { free: (t.free + amount) as u64, reserved: t.reserved })
    }
}

impl Ledger {
    pub open spec fn view(&self) -> Map<AccountId, AccountData> {
        self.accounts@
    }

    /// A ledger with no accounts.
    pub fn new(existential_deposit: Balance) -> (r: Ledger)
        ensures
            r@ == Map::<AccountId, AccountData>::empty(),
            r.existential_deposit == existential_deposit,
    {
        Ledger { existential_deposit, accounts: HashMap::new() }
    }

    /// Sets the free balance of `who`, keeping its reserved balance.
    pub fn set_free_balance(&mut self, who: AccountId, free: Balance)
        ensures
            final(self)@ == old(self)@.insert(
                who,
                AccountData { free, reserved: account_of(old(self)@, who).reserved },
            ),
            final(self).existential_deposit == old(self).existential_deposit,
    {
        let a = self.account(who);
        self.accounts.insert(who, AccountData { free, reserved: a.reserved });
    }

    /// The balances of `who`.
    pub fn account(&self, who: AccountId) -> (r: AccountData)
        ensures
            r == account_of(self@, who),
    {
        match self.accounts.get(&who) {
            Some(a) => *a,
            None => AccountData { free: 0, reserved: 0 },
        }
    }

    /// The free balance of `who`.
    pub fn free_balance(&self, who: AccountId) -> (r: Balance)
        ensures
            r == account_of(self@, who).free,
    {
        self.account(who).free
    }

    /// The reserved balance of `who`.
    pub fn reserved_balance(&self, who: AccountId) -> (r: Balance)
        ensures
            r == account_of(self@, who).reserved,
    {
        self.account(who).reserved
    }

    /// Moves `amount` from the free to the reserved balance of `who`; fails,
    /// changing nothing, when the free balance does not cover it.
    pub fn reserve(&mut self, who: AccountId, amount: Balance) -> (r: Result<(), CurrencyError>)
        ensures
            r is Ok <==> can_reserve(old(self)@, who, amount),
            r is Ok ==> final(self)@ == reserved_into(old(self)@, who, amount),
            r is Err ==> final(self)@ == old(self)@,
            r == Err::<(), CurrencyError>(CurrencyError::InsufficientBalance) <==> account_of(
                old(self)@,
                who,
            ).free < amount,
            r == Err::<(), CurrencyError>(CurrencyError::Overflow) <==> account_of(old(self)@, who).free
                >= amount && account_of(old(self)@, who).reserved + amount > u64::MAX,
            final(self).existential_deposit == old(self).existential_deposit,
    {
        let a = self.account(who);
        if a.free < amount {
            return Err(CurrencyError::InsufficientBalance);
        }
        if a.reserved > u64::MAX - amount {
            return Err(CurrencyError::Overflow);
        }
        self.accounts.insert(who, AccountData { free: a.free - amount, reserved: a.reserved + amount });
        Ok(())
    }

    /// Moves up to `amount` from the reserved back to the free balance of
    /// `who`; releases no more than is reserved and never fails.
    pub fn unreserve(&mut self, who: AccountId, amount: Balance)
        ensures
            final(self)@ == unreserved_from(old(self)@, who, amount),
            final(self).existential_deposit == old(self).existential_deposit,
    {
        let a = self.account(who);
        let actual = if a.reserved < amount {
            a.reserved
        } else {
            amount
        };
        let free = a.free.saturating_add(actual);
        self.accounts.insert(who, AccountData { free, reserved: a.reserved - actual });
    }

    /// Whether a transfer would go through, and if not, why; changes nothing.
    pub fn check_transfer(&self, from: AccountId, to: AccountId, amount: Balance, keep_alive: bool) -> (r:
        Result<(), CurrencyError>)
        ensures
            r is Ok <==> transfer_error(self@, self.existential_deposit, from, to, amount, keep_alive) is None,
            r matches Err(e) ==> transfer_error(self@, self.existential_deposit, from, to, amount, keep_alive)
                == Some(e),
    {
        if amount == 0 || from == to {
            return Ok(());
        }
        let f = self.account(from);
        let t = self.account(to);
        if f.free < amount {
            return Err(CurrencyError::InsufficientBalance);
        }
        if keep_alive && (f.reserved as u128) + ((f.free - amount) as u128) < self.existential_deposit as u128 {
            return Err(CurrencyError::KeepAlive);
        }
        if t.free > u64::MAX - amount {
            return Err(CurrencyError::Overflow);
        }
        if (t.free as u128) + (amount as u128) + (t.reserved as u128) < self.existential_deposit as u128 {
            return Err(CurrencyError::ExistentialDeposit);
        }
        Ok(())
    }

    /// Moves `amount` from the free balance of `from` to the free balance of
    /// `to`; with `keep_alive`, refuses to leave `from` below the existential
    /// deposit. Fails without changing anything.
    pub fn transfer(&mut self, from: AccountId, to: AccountId, amount: Balance, keep_alive: bool) -> (r:
        Result<(), CurrencyError>)
        ensures
            r is Ok <==> transfer_error(old(self)@, old(self).existential_deposit, from, to, amount, keep_alive)
                is None,
            r matches Err(e) ==> transfer_error(old(self)@, old(self).existential_deposit, from, to, amount, keep_alive)
                == Some(e),
            r is Ok ==> final(self)@ == transferred(old(self)@, from, to, amount),
            r is Err ==> final(self)@ == old(self)@,
            final(self).existential_deposit == old(self).existential_deposit,
    {
        let checked = self.check_transfer(from, to, amount, keep_alive);
        if checked.is_err() {
            return checked;
        }
        if amount == 0 || from == to {
            return Ok(());
        }
        let f = self.account(from);
        self.accounts.insert(from, AccountData { free: f.free - amount, reserved: f.reserved });
        let t = self.account(to);
        self.accounts.insert(to, AccountData { free: t.free + amount, reserved: t.reserved });
        Ok(())
    }
}

} // verus!
