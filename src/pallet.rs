//! The asset registry: creation, transfer, breeding, listing and purchase.
use std::collections::HashMap;
use vstd::prelude::*;

use crate::currency::{
    account_of, can_reserve, reserved_into, transfer_error, transferred, unreserved_from,
    AccountId, Balance, CurrencyError, Ledger,
};
use crate::dna::{mix_dna, mixed, random_bytes, random_value};

verus! {

/// An asset's identifier.
pub type KittyIndex = u32;

/// An asset: an immutable 16-byte genome.
#[derive(Clone, Copy, Debug, PartialEq, Eq)]
pub struct Kitty(pub [u8; 16]);

/// The registry's parameters.
#[derive(Clone, Copy, Debug, PartialEq, Eq, Structural)]
pub struct Config {
    /// The amount reserved from an owner for each asset it holds.
    pub kitty_reserve: Balance,
    /// The identifier at which allocation stops: no asset ever gets it.
    pub max_kitty_index: KittyIndex,
}

/// What a successful command announces.
#[derive(Clone, Copy, Debug, PartialEq, Eq, Structural)]
pub enum Event {
    /// `(owner, id)`: a new asset was created or bred.
    KittyCreate(AccountId, KittyIndex),
    /// `(from, to, id)`: an asset changed hands.
    KittyTransfer(AccountId, AccountId, KittyIndex),
    /// `(owner, id, price)`: an asset was listed at a price, or delisted.
    KittySale(AccountId, KittyIndex, Option<Balance>),
    /// `(buyer, id, price)`: an asset was bought.
    KittyBuy(AccountId, KittyIndex, Option<Balance>),
}

/// Why a command was refused.
#[derive(Clone, Copy, Debug, PartialEq, Eq, Structural)]
pub enum Error {
    /// Every identifier has been handed out.
    KittiesCountOverflow,
    /// The caller does not own the asset, or the asset does not exist.
    NotOwner,
    /// An asset cannot be bred with itself.
    SameParentIndex,
    /// A parent asset does not exist.
    InvalidKittyIndex,
    /// The asset would go to the account that already owns it.
    AlreadyOwned,
    /// A balance cannot cover a reservation or a payment.
    MoneyNoEnough,
    /// The asset is not listed for sale.
    NoSale,
    /// A payment was refused for another reason than a short balance.
    TransferError,
}

/// The registry's state together with the balances it reserves against.
pub struct Pallet {
    pub config: Config,
    /// Entropy supplied by the host for the current command.
    pub random_seed: [u8; 32],
    /// The position of the current command in its batch, if the host knows it.
    pub extrinsic_index: Option<u32>,
    /// The next identifier to hand out.
    pub kitties_count: KittyIndex,
    pub kitties: HashMap<KittyIndex, Kitty>,
    pub owner: HashMap<KittyIndex, AccountId>,
    /// Assets listed for sale, with their prices; an absent entry means not listed.
    pub kitty_prices: HashMap<KittyIndex, Balance>,
    pub balances: Ledger,
    /// Every event announced so far, oldest first.
    pub events: Vec<Event>,
}

/// The error a refused payment turns into.
pub open spec fn payment_error(e: CurrencyError) -> Error {
    if e == CurrencyError::InsufficientBalance {
        Error::MoneyNoEnough
    } else {
        Error::TransferError
    }
}

fn to_payment_error(e: CurrencyError) -> (r: Error)
    ensures
        r == payment_error(e),
{
    match e {
        CurrencyError::InsufficientBalance => Error::MoneyNoEnough,
        _ => Error::TransferError,
    }
}

impl Pallet {
    /// Identifiers are contiguous from 0: exactly those below the count have a
    /// genome and an owner, and only they can be listed.
    pub open spec fn wf(&self) -> bool {
        &&& self.kitties_count <= self.config.max_kitty_index
        &&& forall|id: KittyIndex| #[trigger]
            self.owner@.contains_key(id) <==> id < self.kitties_count
        &&& forall|id: KittyIndex| #[trigger]
            self.kitties@.contains_key(id) <==> id < self.kitties_count
        &&& forall|id: KittyIndex| #[trigger]
            self.kitty_prices@.contains_key(id) ==> id < self.kitties_count
    }

    /// Whether `who` owns asset `id`.
    pub open spec fn owned_by(&self, id: KittyIndex, who: AccountId) -> bool {
        self.owner@.contains_key(id) && self.owner@[id] == who
    }

    /// What no command changes: the parameters, the host's context and the
    /// existential deposit.
    pub open spec fn same_setting(&self, other: &Pallet) -> bool {
        &&& self.config == other.config
        &&& self.random_seed == other.random_seed
        &&& self.extrinsic_index == other.extrinsic_index
        &&& self.balances.existential_deposit == other.balances.existential_deposit
    }

    /// `other` holds the same assets, owners, prices, balances and events.
    pub open spec fn same_state(&self, other: &Pallet) -> bool {
        &&& self.kitties_count == other.kitties_count
        &&& self.kitties@ == other.kitties@
        &&& self.owner@ == other.owner@
        &&& self.kitty_prices@ == other.kitty_prices@
        &&& self.balances@ == other.balances@
        &&& self.events@ == other.events@
    }

    /// `post` is `pre` after a new asset `id` with genome `dna` went to `who`.
    pub open spec fn minted(pre: &Pallet, post: &Pallet, who: AccountId, id: KittyIndex, dna: Seq<u8>) -> bool {
        &&& id == pre.kitties_count
        &&& post.kitties_count == pre.kitties_count + 1
        &&& post.kitties@ == pre.kitties@.insert(id, post.kitties@[id])
        &&& post.kitties@[id].0@ == dna
        &&& post.owner@ == pre.owner@.insert(id, who)
        &&& post.kitty_prices@ == pre.kitty_prices@
        &&& post.balances@ == reserved_into(pre.balances@, who, pre.config.kitty_reserve)
        &&& post.events@ == pre.events@.push(Event::KittyCreate(who, id))
    }

    /// `post` is `pre` after `who` listed asset `id` at `price`, or delisted it.
    pub open spec fn listed(pre: &Pallet, post: &Pallet, who: AccountId, id: KittyIndex, price: Option<Balance>) -> bool {
        &&& post.kitties_count == pre.kitties_count
        &&& post.kitties@ == pre.kitties@
        &&& post.owner@ == pre.owner@
        &&& post.kitty_prices@ == match price {
            Some(p) => pre.kitty_prices@.insert(id, p),
            None => pre.kitty_prices@.remove(id),
        }
        &&& post.balances@ == pre.balances@
        &&& post.events@ == pre.events@.push(Event::KittySale(who, id, price))
    }

    /// `post` is `pre` after `who` bought asset `id` at its listed price.
    pub open spec fn bought(pre: &Pallet, post: &Pallet, who: AccountId, id: KittyIndex) -> bool {
        let seller = pre.owner@[id];
        let price = pre.kitty_prices@[id];
        let unit = pre.config.kitty_reserve;
        &&& post.kitties_count == pre.kitties_count
        &&& post.kitties@ == pre.kitties@
        &&& post.owner@ == pre.owner@.insert(id, who)
        &&& post.kitty_prices@ == pre.kitty_prices@.remove(id)
        &&& post.balances@ == unreserved_from(
            reserved_into(transferred(pre.balances@, who, seller, price), who, unit),
            seller,
            unit,
        )
        &&& post.events@ == pre.events@.push(Event::KittyBuy(who, id, Some(price)))
    }

    /// Why `buy(who, id)` is refused on this state, if it is.
    pub open spec fn buy_error(&self, who: AccountId, id: KittyIndex) -> Option<Error> {
        let seller = self.owner@[id];
        let price = self.kitty_prices@[id];
        let paid = transfer_error(self.balances@, self.balances.existential_deposit, who, seller, price, true);
        if !self.owner@.contains_key(id) {
            Some(Error::NotOwner)
        } else if !self.kitty_prices@.contains_key(id) {
            Some(Error::NoSale)
        } else if seller == who {
            Some(Error::AlreadyOwned)
        } else if paid is Some {
            Some(payment_error(paid->Some_0))
        } else if !can_reserve(transferred(self.balances@, who, seller, price), who, self.config.kitty_reserve) {
            Some(Error::MoneyNoEnough)
        } else {
            None
        }
    }

    /// An empty registry over `balances`, with no entropy yet.
    pub fn new(config: Config, balances: Ledger) -> (r: Pallet)
        ensures
            r.wf(),
            r.config == config,
            r.kitties_count == 0,
            r.balances@ == balances@,
            r.balances.existential_deposit == balances.existential_deposit,
            r.events@.len() == 0,
            r.random_seed@ == Seq::new(32, |i: int| 0u8),
            r.extrinsic_index is None,
    {
        let r = Pallet {
            config,
            random_seed: [0u8; 32],
            extrinsic_index: None,
            kitties_count: 0,
            kitties: HashMap::new(),
            owner: HashMap::new(),
            kitty_prices: HashMap::new(),
            balances,
            events: Vec::new(),
        };
        assert(r.random_seed@ =~= Seq::new(32, |i: int| 0u8));
        r
    }

    /// Sets the entropy and batch position the host supplies for the next command.
    pub fn set_context(&mut self, random_seed: [u8; 32], extrinsic_index: Option<u32>)
        ensures
            final(self).random_seed == random_seed,
            final(self).extrinsic_index == extrinsic_index,
            final(self).config == old(self).config,
            final(self).same_state(old(self)),
            final(self).balances.existential_deposit == old(self).balances.existential_deposit,
    {
        self.random_seed = random_seed;
        self.extrinsic_index = extrinsic_index;
    }

    /// The identifier the next asset gets; fails once the identifier space is used up.
    pub fn get_kitty_id(&self) -> (r: Result<KittyIndex, Error>)
        ensures
            self.kitties_count == self.config.max_kitty_index <==> r == Err::<KittyIndex, Error>(
                Error::KittiesCountOverflow,
            ),
            self.kitties_count != self.config.max_kitty_index <==> r == Ok::<KittyIndex, Error>(
                self.kitties_count,
            ),
    {
        let kitty_id = self.kitties_count;
        if kitty_id == self.config.max_kitty_index {
            return Err(Error::KittiesCountOverflow);
        }
        Ok(kitty_id)
    }

    /// Adds asset `id` with genome `dna`, owned by `who`, and advances the count.
    fn insert_kitty(&mut self, who: AccountId, id: KittyIndex, dna: [u8; 16])
        requires
            old(self).wf(),
            id == old(self).kitties_count,
            id < old(self).config.max_kitty_index,
        ensures
            final(self).wf(),
            final(self).same_setting(old(self)),
            final(self).kitties_count == old(self).kitties_count + 1,
            final(self).kitties@ == old(self).kitties@.insert(id, Kitty(dna)),
            final(self).owner@ == old(self).owner@.insert(id, who),
            final(self).kitty_prices@ == old(self).kitty_prices@,
            final(self).balances@ == old(self).balances@,
            final(self).events@ == old(self).events@.push(Event::KittyCreate(who, id)),
    {
        self.kitties.insert(id, Kitty(dna));
        self.owner.insert(id, who);
        self.kitties_count = id + 1;
        self.events.push(Event::KittyCreate(who, id));
    }

    /// Creates an asset with genome `dna` for `who`, reserving the per-asset
    /// amount from its free balance.
    pub fn mint(&mut self, who: AccountId, dna: [u8; 16]) -> (r: Result<KittyIndex, Error>)
        requires
            old(self).wf(),
        ensures
            final(self).wf(),
            final(self).same_setting(old(self)),
            r is Ok <==> old(self).kitties_count != old(self).config.max_kitty_index && can_reserve(
                old(self).balances@,
                who,
                old(self).config.kitty_reserve,
            ),
            r == Err::<KittyIndex, Error>(Error::KittiesCountOverflow) <==> old(self).kitties_count
                == old(self).config.max_kitty_index,
            r == Err::<KittyIndex, Error>(Error::MoneyNoEnough) <==> old(self).kitties_count
                != old(self).config.max_kitty_index && !can_reserve(
                old(self).balances@,
                who,
                old(self).config.kitty_reserve,
            ),
            r is Err ==> final(self).same_state(old(self)),
            r matches Ok(id) ==> Self::minted(old(self), final(self), who, id, dna@),
    {
        let kitty_id = match self.get_kitty_id() {
            Ok(id) => id,
            Err(e) => return Err(e),
        };
        let reserve = self.config.kitty_reserve;
        if self.balances.reserve(who, reserve).is_err() {
            return Err(Error::MoneyNoEnough);
        }
        self.insert_kitty(who, kitty_id, dna);
        Ok(kitty_id)
    }

    /// Creates an asset for `who` with a genome drawn from the host's entropy.
    pub fn create(&mut self, who: AccountId) -> (r: Result<KittyIndex, Error>)
        requires
            old(self).wf(),
        ensures
            final(self).wf(),
            final(self).same_setting(old(self)),
            r is Ok <==> old(self).kitties_count != old(self).config.max_kitty_index && can_reserve(
                old(self).balances@,
                who,
                old(self).config.kitty_reserve,
            ),
            r == Err::<KittyIndex, Error>(Error::KittiesCountOverflow) <==> old(self).kitties_count
                == old(self).config.max_kitty_index,
            r == Err::<KittyIndex, Error>(Error::MoneyNoEnough) <==> old(self).kitties_count
                != old(self).config.max_kitty_index && !can_reserve(
                old(self).balances@,
                who,
                old(self).config.kitty_reserve,
            ),
            r is Err ==> final(self).same_state(old(self)),
            r matches Ok(id) ==> Self::minted(
                old(self),
                final(self),
                who,
                id,
                random_bytes(old(self).random_seed@, who, old(self).extrinsic_index),
            ),
    {
        let dna = random_value(&self.random_seed, who, self.extrinsic_index);
        self.mint(who, dna)
    }

    /// Hands asset `id` from `who` to `new_owner`, moving the per-asset
    /// reservation from the one to the other. A listing stays as it was.
    pub fn transfer(&mut self, who: AccountId, new_owner: AccountId, id: KittyIndex) -> (r: Result<(), Error>)
        requires
            old(self).wf(),
        ensures
            final(self).wf(),
            final(self).same_setting(old(self)),
            r is Ok <==> who != new_owner && old(self).owned_by(id, who) && can_reserve(
                old(self).balances@,
                new_owner,
                old(self).config.kitty_reserve,
            ),
            r == Err::<(), Error>(Error::AlreadyOwned) <==> who == new_owner,
            r == Err::<(), Error>(Error::NotOwner) <==> who != new_owner && !old(self).owned_by(id, who),
            r == Err::<(), Error>(Error::MoneyNoEnough) <==> who != new_owner && old(self).owned_by(id, who)
                && !can_reserve(old(self).balances@, new_owner, old(self).config.kitty_reserve),
            r is Err ==> final(self).same_state(old(self)),
            r is Ok ==> {
                &&& final(self).kitties_count == old(self).kitties_count
                &&& final(self).kitties@ == old(self).kitties@
                &&& final(self).owner@ == old(self).owner@.insert(id, new_owner)
                &&& final(self).kitty_prices@ == old(self).kitty_prices@
                &&& final(self).balances@ == unreserved_from(
                    reserved_into(old(self).balances@, new_owner, old(self).config.kitty_reserve),
                    who,
                    old(self).config.kitty_reserve,
                )
                &&& final(self).events@ == old(self).events@.push(Event::KittyTransfer(who, new_owner, id))
            },
    {
        if who == new_owner {
            return Err(Error::AlreadyOwned);
        }
        match self.owner.get(&id) {
            Some(o) => {
                if *o != who {
                    return Err(Error::NotOwner);
                }
            },
            None => return Err(Error::NotOwner),
        }
        let reserve = self.config.kitty_reserve;
        if self.balances.reserve(new_owner, reserve).is_err() {
            return Err(Error::MoneyNoEnough);
        }
        self.balances.unreserve(who, reserve);
        self.owner.insert(id, new_owner);
        self.events.push(Event::KittyTransfer(who, new_owner, id));
        Ok(())
    }

    /// Breeds assets `id_1` and `id_2` for `who` under the given selector:
    /// the child's genome takes each bit from the first parent where the
    /// selector's bit is set and from the second where it is clear.
    pub fn breed_with_selector(
        &mut self,
        who: AccountId,
        id_1: KittyIndex,
        id_2: KittyIndex,
        selector: [u8; 16],
    ) -> (r: Result<KittyIndex, Error>)
        requires
            old(self).wf(),
        ensures
            final(self).wf(),
            final(self).same_setting(old(self)),
            r is Ok <==> id_1 != id_2 && old(self).kitties@.contains_key(id_1) && old(
                self,
            ).kitties@.contains_key(id_2) && old(self).kitties_count != old(self).config.max_kitty_index
                && can_reserve(old(self).balances@, who, old(self).config.kitty_reserve),
            r == Err::<KittyIndex, Error>(Error::SameParentIndex) <==> id_1 == id_2,
            r == Err::<KittyIndex, Error>(Error::InvalidKittyIndex) <==> id_1 != id_2 && !(old(
                self,
            ).kitties@.contains_key(id_1) && old(self).kitties@.contains_key(id_2)),
            r == Err::<KittyIndex, Error>(Error::KittiesCountOverflow) <==> id_1 != id_2 && old(
                self,
            ).kitties@.contains_key(id_1) && old(self).kitties@.contains_key(id_2) && old(self).kitties_count
                == old(self).config.max_kitty_index,
            r == Err::<KittyIndex, Error>(Error::MoneyNoEnough) <==> id_1 != id_2 && old(
                self,
            ).kitties@.contains_key(id_1) && old(self).kitties@.contains_key(id_2) && old(self).kitties_count
                != old(self).config.max_kitty_index && !can_reserve(
                old(self).balances@,
                who,
                old(self).config.kitty_reserve,
            ),
            r is Err ==> final(self).same_state(old(self)),
            r matches Ok(id) ==> Self::minted(
                old(self),
                final(self),
                who,
                id,
                mixed(selector@, old(self).kitties@[id_1].0@, old(self).kitties@[id_2].0@),
            ),
    {
        if id_1 == id_2 {
            return Err(Error::SameParentIndex);
        }
        let kitty_1 = match self.kitties.get(&id_1) {
            Some(k) => *k,
            None => return Err(Error::InvalidKittyIndex),
        };
        let kitty_2 = match self.kitties.get(&id_2) {
            Some(k) => *k,
            None => return Err(Error::InvalidKittyIndex),
        };
        let kitty_id = match self.get_kitty_id() {
            Ok(id) => id,
            Err(e) => return Err(e),
        };
        let new_dna = mix_dna(&selector, &kitty_1.0, &kitty_2.0);
        let reserve = self.config.kitty_reserve;
        if self.balances.reserve(who, reserve).is_err() {
            return Err(Error::MoneyNoEnough);
        }
        self.insert_kitty(who, kitty_id, new_dna);
        Ok(kitty_id)
    }

    /// Breeds assets `id_1` and `id_2` for `who`, with a selector drawn from
    /// the host's entropy.
    pub fn breed(&mut self, who: AccountId, id_1: KittyIndex, id_2: KittyIndex) -> (r: Result<KittyIndex, Error>)
        requires
            old(self).wf(),
        ensures
            final(self).wf(),
            final(self).same_setting(old(self)),
            r is Ok <==> id_1 != id_2 && old(self).kitties@.contains_key(id_1) && old(
                self,
            ).kitties@.contains_key(id_2) && old(self).kitties_count != old(self).config.max_kitty_index
                && can_reserve(old(self).balances@, who, old(self).config.kitty_reserve),
            r == Err::<KittyIndex, Error>(Error::SameParentIndex) <==> id_1 == id_2,
            r == Err::<KittyIndex, Error>(Error::InvalidKittyIndex) <==> id_1 != id_2 && !(old(
                self,
            ).kitties@.contains_key(id_1) && old(self).kitties@.contains_key(id_2)),
            r == Err::<KittyIndex, Error>(Error::KittiesCountOverflow) <==> id_1 != id_2 && old(
                self,
            ).kitties@.contains_key(id_1) && old(self).kitties@.contains_key(id_2) && old(self).kitties_count
                == old(self).config.max_kitty_index,
            r == Err::<KittyIndex, Error>(Error::MoneyNoEnough) <==> id_1 != id_2 && old(
                self,
            ).kitties@.contains_key(id_1) && old(self).kitties@.contains_key(id_2) && old(self).kitties_count
                != old(self).config.max_kitty_index && !can_reserve(
                old(self).balances@,
                who,
                old(self).config.kitty_reserve,
            ),
            r is Err ==> final(self).same_state(old(self)),
            r matches Ok(id) ==> Self::minted(
                old(self),
                final(self),
                who,
                id,
                mixed(
                    random_bytes(old(self).random_seed@, who, old(self).extrinsic_index),
                    old(self).kitties@[id_1].0@,
                    old(self).kitties@[id_2].0@,
                ),
            ),
    {
        let selector = random_value(&self.random_seed, who, self.extrinsic_index);
        self.breed_with_selector(who, id_1, id_2, selector)
    }

    /// Lists asset `id` of `who` at `price`, or delists it when `price` is `None`.
    pub fn sale(&mut self, who: AccountId, id: KittyIndex, price: Option<Balance>) -> (r: Result<(), Error>)
        requires
            old(self).wf(),
        ensures
            final(self).wf(),
            final(self).same_setting(old(self)),
            r is Ok <==> old(self).owned_by(id, who),
            r matches Err(e) ==> e == Error::NotOwner && final(self).same_state(old(self)),
            r is Ok ==> Self::listed(old(self), final(self), who, id, price),
    {
        match self.owner.get(&id) {
            Some(o) => {
                if *o != who {
                    return Err(Error::NotOwner);
                }
            },
            None => return Err(Error::NotOwner),
        }
        match price {
            Some(p) => {
                self.kitty_prices.insert(id, p);
            },
            None => {
                self.kitty_prices.remove(&id);
            },
        }
        self.events.push(Event::KittySale(who, id, price));
        Ok(())
    }

    /// Buys asset `id` for `who` at its listed price: the price goes from the
    /// buyer's free balance to the seller's, the per-asset reservation moves
    /// from the seller to the buyer, and the listing is cleared. Every check
    /// is made before anything changes.
    pub fn buy(&mut self, who: AccountId, id: KittyIndex) -> (r: Result<(), Error>)
        requires
            old(self).wf(),
        ensures
            final(self).wf(),
            final(self).same_setting(old(self)),
            r is Ok <==> old(self).buy_error(who, id) is None,
            r matches Err(e) ==> old(self).buy_error(who, id) == Some(e) && final(self).same_state(old(self)),
            r is Ok ==> Self::bought(old(self), final(self), who, id),
    {
        let seller = match self.owner.get(&id) {
            Some(o) => *o,
            None => return Err(Error::NotOwner),
        };
        let price = match self.kitty_prices.get(&id) {
            Some(p) => *p,
            None => return Err(Error::NoSale),
        };
        if seller == who {
            return Err(Error::AlreadyOwned);
        }
        match self.balances.check_transfer(who, seller, price, true) {
            Ok(()) => {},
            Err(e) => return Err(to_payment_error(e)),
        }
        let reserve = self.config.kitty_reserve;
        let buyer = self.balances.account(who);
        let left = buyer.free - price;
        if left < reserve || buyer.reserved > u64::MAX - reserve {
            return Err(Error::MoneyNoEnough);
        }
        let paid = self.balances.transfer(who, seller, price, true);
        let reserved = self.balances.reserve(who, reserve);
        assert(paid is Ok && reserved is Ok);
        self.balances.unreserve(seller, reserve);
        self.owner.insert(id, who);
        self.kitty_prices.remove(&id);
        self.events.push(Event::KittyBuy(who, id, Some(price)));
        Ok(())
    }

    /// The number of assets created so far.
    pub fn kitties_count(&self) -> (r: KittyIndex)
        ensures
            r == self.kitties_count,
    {
        self.kitties_count
    }

    /// The asset `id`, if it exists.
    pub fn kitties(&self, id: KittyIndex) -> (r: Option<Kitty>)
        ensures
            r is Some <==> self.kitties@.contains_key(id),
            r matches Some(k) ==> k == self.kitties@[id],
    {
        match self.kitties.get(&id) {
            Some(k) => Some(*k),
            None => None,
        }
    }

    /// The owner of asset `id`, if it exists.
    pub fn owner(&self, id: KittyIndex) -> (r: Option<AccountId>)
        ensures
            r is Some <==> self.owner@.contains_key(id),
            r matches Some(o) ==> o == self.owner@[id],
    {
        match self.owner.get(&id) {
            Some(o) => Some(*o),
            None => None,
        }
    }

    /// The price asset `id` is listed at, if it is listed.
    pub fn kitty_prices(&self, id: KittyIndex) -> (r: Option<Balance>)
        ensures
            r is Some <==> self.kitty_prices@.contains_key(id),
            r matches Some(p) ==> p == self.kitty_prices@[id],
    {
        match self.kitty_prices.get(&id) {
            Some(p) => Some(*p),
            None => None,
        }
    }

    /// The most recent event, if any.
    pub fn last_event(&self) -> (r: Option<Event>)
        ensures
            self.events@.len() == 0 ==> r is None,
            self.events@.len() > 0 ==> r == Some(self.events@.last()),
    {
        if self.events.len() == 0 {
            None
        } else {
            Some(self.events[self.events.len() - 1])
        }
    }
}

/// Every asset below the count exists and has exactly one owner, in every
/// state that the commands reach.
pub proof fn lemma_every_kitty_owned(p: Pallet, id: KittyIndex)
    requires
        p.wf(),
        id < p.kitties_count,
    ensures
        p.owner@.contains_key(id),
        p.kitties@.contains_key(id),
{
}

/// Listing an asset at `price` and then selling it to `buyer` leaves the buyer
/// as its owner and the asset unlisted; the buyer pays the price and the
/// per-asset reservation out of its free balance, and the seller's free balance
/// grows by the price plus at most the reservation it gets back.
pub proof fn lemma_list_then_buy(
    start: Pallet,
    on_sale: Pallet,
    sold: Pallet,
    owner: AccountId,
    buyer: AccountId,
    id: KittyIndex,
    price: Balance,
)
    requires
        start.wf(),
        start.owned_by(id, owner),
        Pallet::listed(&start, &on_sale, owner, id, Some(price)),
        on_sale.buy_error(buyer, id) is None,
        Pallet::bought(&on_sale, &sold, buyer, id),
    ensures
        sold.owner@[id] == buyer,
        !sold.kitty_prices@.contains_key(id),
        account_of(sold.balances@, buyer).free == account_of(start.balances@, buyer).free - price
            - on_sale.config.kitty_reserve,
        account_of(sold.balances@, buyer).reserved == account_of(start.balances@, buyer).reserved
            + on_sale.config.kitty_reserve,
        account_of(start.balances@, owner).free + price <= account_of(sold.balances@, owner).free,
        account_of(sold.balances@, owner).free <= account_of(start.balances@, owner).free + price
            + on_sale.config.kitty_reserve,
{
    assert(on_sale.owner@[id] == owner);
    assert(on_sale.kitty_prices@[id] == price);
}

} // verus!
