use vstd::prelude::*;
use std::collections::HashMap;
use crate::errors::Error;
use crate::kitty::{Kitty, crossover};
use crate::ledger::Ledger;
use crate::random::{Entropy, derive_of, random_value};

verus! {

broadcast use vstd::std_specs::hash::group_hash_axioms;

/// The registry's parameters, fixed when the instance is constructed:
/// the deposit an account must set aside to mint a fresh asset.
#[derive(Clone, Copy, Debug, PartialEq, Eq, Structural)]
pub struct Config {
    pub reserve_per_kitty: u64,
}

/// The registry: the asset store, the ownership store, and the identifier
/// allocator, threaded explicitly through every operation. Each operation
/// either commits a consistent set of writes or reports an error having
/// written nothing.
pub struct Pallet {
    /// Asset store: identifier to attribute and listing data.
    pub kitty_of: HashMap<u64, Kitty>,
    /// Ownership store: identifier to the account that controls the asset.
    pub owner_of: HashMap<u64, u64>,
    /// The highest identifier allocated so far; `None` before the first mint.
    pub count: Option<u64>,
    pub config: Config,
}

/// The identifier the allocator hands out next: the minimal identifier if
/// none was ever allocated, the successor of the highest one otherwise.
pub open spec fn spec_next_id(count: Option<u64>) -> int {
    match count {
        None => 1,
        Some(c) => c + 1,
    }
}

/// The number of identifiers allocated so far.
pub open spec fn spec_count_base(count: Option<u64>) -> int {
    match count {
        None => 0,
        Some(c) => c as int,
    }
}

/// Whether `id` lies in the range the allocator has handed out.
pub open spec fn spec_in_range(count: Option<u64>, id: u64) -> bool {
    match count {
        None => false,
        Some(c) => 1 <= id <= c,
    }
}

/// `post` is `pre` with the asset `id` re-listed at `price`: its attribute
/// vector kept, its price replaced, and every other asset untouched.
pub open spec fn kitty_price_updated(
    pre: Map<u64, Kitty>,
    post: Map<u64, Kitty>,
    id: u64,
    price: Option<u64>,
) -> bool {
    &&& pre.contains_key(id)
    &&& post.contains_key(id)
    &&& post[id].dna@ == pre[id].dna@
    &&& post[id].price == price
    &&& forall|j: u64| j != id ==> (post.contains_key(j) <==> pre.contains_key(j))
    &&& forall|j: u64| j != id && #[trigger] post.contains_key(j) ==> post[j] == pre[j]
}

/// `post` is `pre` after minting one asset: a fresh identifier `id` was
/// allocated, an asset with attribute vector `dna` and no listing price was
/// stored under it, `owner` was recorded as its owner, and nothing else
/// changed.
pub open spec fn spec_minted(pre: Pallet, post: Pallet, owner: u64, dna: Seq<u8>, id: u64) -> bool {
    &&& id as int == spec_next_id(pre.count)
    &&& !pre.kitty_of@.contains_key(id)
    &&& !pre.owner_of@.contains_key(id)
    &&& post.count == Some(id)
    &&& post.config == pre.config
    &&& post.owner_of@ == pre.owner_of@.insert(id, owner)
    &&& post.kitty_of@.contains_key(id)
    &&& post.kitty_of@[id].dna@ == dna
    &&& post.kitty_of@[id].price is None
    &&& forall|j: u64| j != id ==> (post.kitty_of@.contains_key(j) <==> pre.kitty_of@.contains_key(j))
    &&& forall|j: u64|
        j != id && #[trigger] post.kitty_of@.contains_key(j) ==> post.kitty_of@[j]
            == pre.kitty_of@[j]
}

impl Pallet {
    /// Well-formedness of the registry, preserved by every operation:
    /// an asset record exists exactly where an ownership record exists,
    /// every stored attribute vector is 16 bytes, and every identifier in
    /// use was handed out by the allocator.
    pub open spec fn inv(self) -> bool {
        &&& forall|id: u64|
            #[trigger] self.kitty_of@.contains_key(id) ==> self.owner_of@.contains_key(id)
        &&& forall|id: u64|
            #[trigger] self.owner_of@.contains_key(id) ==> self.kitty_of@.contains_key(id)
        &&& forall|id: u64| #[trigger] self.kitty_of@.contains_key(id) ==> self.kitty_of@[id].wf()
        &&& forall|id: u64|
            #[trigger] self.kitty_of@.contains_key(id) ==> spec_in_range(self.count, id)
    }

    /// An empty registry with the given parameters.
    pub fn new(config: Config) -> (r: Pallet)
        ensures
            r.inv(),
            r.count is None,
            r.config == config,
            forall|id: u64| !r.kitty_of@.contains_key(id),
            forall|id: u64| !r.owner_of@.contains_key(id),
    {
        Pallet { kitty_of: HashMap::new(), owner_of: HashMap::new(), count: None, config }
    }

    /// The highest identifier allocated so far, if any.
    pub fn kitties_count(&self) -> (r: Option<u64>)
        ensures
            r == self.count,
    {
        self.count
    }

    /// The asset registered under `kitty_id`, if any.
    pub fn kitties(&self, kitty_id: u64) -> (r: Option<Kitty>)
        ensures
            match r {
                Some(k) => self.kitty_of@.contains_key(kitty_id) && k.dna@
                    == self.kitty_of@[kitty_id].dna@ && k.price == self.kitty_of@[kitty_id].price,
                None => !self.kitty_of@.contains_key(kitty_id),
            },
    {
        match self.kitty_of.get(&kitty_id) {
            Some(k) => Some(k.clone()),
            None => None,
        }
    }

    /// The owner of the asset registered under `kitty_id`, if any.
    pub fn owner(&self, kitty_id: u64) -> (r: Option<u64>)
        ensures
            r == if self.owner_of@.contains_key(kitty_id) {
                Some(self.owner_of@[kitty_id])
            } else {
                None::<u64>
            },
    {
        match self.owner_of.get(&kitty_id) {
            Some(o) => Some(*o),
            None => None,
        }
    }

    /// Mints one asset for `owner`: allocates the next identifier, stores
    /// the given attribute vector — or one derived from the entropy when
    /// none is given — with no listing price, and records the owner.
    /// Fails only when the allocator would overflow, and then changes
    /// nothing.
    pub fn mint(&mut self, owner: u64, dna: Option<Vec<u8>>, entropy: &Entropy) -> (r: Result<
        u64,
        Error,
    >)
        requires
            old(self).inv(),
            dna matches Some(d) ==> d@.len() == 16,
        ensures
            final(self).inv(),
            final(self).config == old(self).config,
            r is Err ==> *final(self) == *old(self),
            r is Ok <==> old(self).count != Some(u64::MAX),
            match r {
                Ok(id) => spec_minted(
                    *old(self),
                    *final(self),
                    owner,
                    match dna {
                        Some(d) => d@,
                        None => derive_of(entropy.seed@, entropy.sequence),
                    },
                    id,
                ),
                Err(e) => e == Error::KittiesCountOverflow && old(self).count == Some(u64::MAX),
            },
    {
        let new_dna: Vec<u8> = match dna {
            Some(d) => d,
            None => random_value(entropy),
        };
        self.mint_resolved(owner, new_dna)
    }

    /// The shared allocation path of minting, once the attribute vector is
    /// settled: the genesis loader enters here directly, bypassing both
    /// the deposit and the randomness deriver.
    pub(crate) fn mint_resolved(&mut self, owner: u64, dna: Vec<u8>) -> (r: Result<u64, Error>)
        requires
            old(self).inv(),
            dna@.len() == 16,
        ensures
            final(self).inv(),
            final(self).config == old(self).config,
            r is Err ==> *final(self) == *old(self),
            r is Ok <==> old(self).count != Some(u64::MAX),
            match r {
                Ok(id) => spec_minted(*old(self), *final(self), owner, dna@, id),
                Err(e) => e == Error::KittiesCountOverflow && old(self).count == Some(u64::MAX),
            },
    {
        let kitty_id: u64 = match self.count {
            Some(id) => {
                if id == u64::MAX {
                    return Err(Error::KittiesCountOverflow);
                }
                id + 1
            },
            None => 1,
        };
        proof {
            assert(!self.kitty_of@.contains_key(kitty_id));
            assert(!self.owner_of@.contains_key(kitty_id));
        }
        self.kitty_of.insert(kitty_id, Kitty { dna, price: None });
        self.owner_of.insert(kitty_id, owner);
        self.count = Some(kitty_id);
        Ok(kitty_id)
    }

    /// Mints a fresh asset for `who` with a pseudo-randomly derived
    /// attribute vector, after `who` sets aside the configured deposit.
    /// Rejected with `NotEnoughBalance` when the caller's free balance
    /// cannot cover the deposit, and with `KittiesCountOverflow` when the
    /// allocator is exhausted; a rejected call leaves the registry and the
    /// ledger untouched.
    pub fn create(&mut self, ledger: &mut Ledger, who: u64, entropy: &Entropy) -> (r: Result<
        Event,
        Error,
    >)
        requires
            old(self).inv(),
            old(ledger).inv(),
        ensures
            final(self).inv(),
            final(ledger).inv(),
            final(self).config == old(self).config,
            r is Err ==> *final(self) == *old(self) && *final(ledger) == *old(ledger),
            r is Ok <==> (old(ledger).spec_free(who) >= old(self).config.reserve_per_kitty && old(
                self,
            ).count != Some(u64::MAX)),
            match r {
                Ok(ev) => {
                    &&& ev matches Event::KittyCreate(o, id) && o == who && spec_minted(
                        *old(self),
                        *final(self),
                        who,
                        derive_of(entropy.seed@, entropy.sequence),
                        id,
                    )
                    &&& final(ledger).spec_free(who) == old(ledger).spec_free(who) - old(
                        self,
                    ).config.reserve_per_kitty
                    &&& final(ledger).spec_reserved(who) == old(ledger).spec_reserved(who) + old(
                        self,
                    ).config.reserve_per_kitty
                    &&& final(ledger).others_unchanged(*old(ledger), who)
                },
                Err(e) => {
                    &&& (e == Error::NotEnoughBalance <==> old(ledger).spec_free(who) < old(
                        self,
                    ).config.reserve_per_kitty)
                    &&& (e == Error::KittiesCountOverflow <==> old(ledger).spec_free(who) >= old(
                        self,
                    ).config.reserve_per_kitty && old(self).count == Some(u64::MAX))
                },
            },
    {
        let amount = self.config.reserve_per_kitty;
        if ledger.free_balance(who) < amount {
            return Err(Error::NotEnoughBalance);
        }
        // A full allocator must reject the call before the deposit is
        // taken, so that the failure leaves the ledger untouched too.
        if let Some(c) = self.count {
            if c == u64::MAX {
                return Err(Error::KittiesCountOverflow);
            }
        }
        match ledger.reserve(who, amount) {
            Ok(()) => {},
            Err(_) => {
                return Err(Error::NotEnoughBalance);
            },
        }
        match self.mint(who, None, entropy) {
            Ok(kitty_id) => Ok(Event::KittyCreate(who, kitty_id)),
            Err(e) => Err(e),
        }
    }

    /// Reassigns the asset to `to` and clears its listing price; no
    /// currency moves. Rejected when the asset does not exist or the caller
    /// does not own it, and then nothing changes. `to == who` is not
    /// rejected: the reassignment is a no-op but the price is still
    /// cleared.
    pub fn transfer(&mut self, who: u64, to: u64, kitty_id: u64) -> (r: Result<Event, Error>)
        requires
            old(self).inv(),
        ensures
            final(self).inv(),
            final(self).config == old(self).config,
            r is Err ==> *final(self) == *old(self),
            r is Ok <==> (old(self).kitty_of@.contains_key(kitty_id) && old(
                self,
            ).owner_of@[kitty_id] == who),
            match r {
                Ok(ev) => {
                    &&& ev == Event::KittyTransfered(who, to, kitty_id)
                    &&& final(self).owner_of@ == old(self).owner_of@.insert(kitty_id, to)
                    &&& kitty_price_updated(
                        old(self).kitty_of@,
                        final(self).kitty_of@,
                        kitty_id,
                        None::<u64>,
                    )
                    &&& final(self).count == old(self).count
                },
                Err(e) => {
                    &&& (e == Error::KittyNotExist <==> !old(self).kitty_of@.contains_key(kitty_id))
                    &&& (e == Error::NotOwner <==> old(self).kitty_of@.contains_key(kitty_id) && old(
                        self,
                    ).owner_of@[kitty_id] != who)
                },
            },
    {
        let delisted: Kitty = match self.kitty_of.get(&kitty_id) {
            Some(k) => Kitty { dna: k.dna.clone(), price: None },
            None => {
                return Err(Error::KittyNotExist);
            },
        };
        let current = match self.owner_of.get(&kitty_id) {
            Some(o) => *o,
            None => {
                return Err(Error::KittyNotExist);
            },
        };
        if current != who {
            return Err(Error::NotOwner);
        }
        proof {
            assert(delisted.dna@ =~= self.kitty_of@[kitty_id].dna@);
        }
        self.kitty_of.insert(kitty_id, delisted);
        self.owner_of.insert(kitty_id, to);
        Ok(Event::KittyTransfered(who, to, kitty_id))
    }

    /// Sets the asset's listing price; `None` delists it. Rejected when the
    /// asset does not exist or the caller does not own it, and then nothing
    /// changes.
    pub fn set_price(&mut self, who: u64, kitty_id: u64, new_price: Option<u64>) -> (r: Result<
        Event,
        Error,
    >)
        requires
            old(self).inv(),
        ensures
            final(self).inv(),
            final(self).config == old(self).config,
            r is Err ==> *final(self) == *old(self),
            r is Ok <==> (old(self).kitty_of@.contains_key(kitty_id) && old(
                self,
            ).owner_of@[kitty_id] == who),
            match r {
                Ok(ev) => {
                    &&& ev == Event::PriceChange(who, kitty_id)
                    &&& final(self).owner_of@ == old(self).owner_of@
                    &&& kitty_price_updated(
                        old(self).kitty_of@,
                        final(self).kitty_of@,
                        kitty_id,
                        new_price,
                    )
                    &&& final(self).count == old(self).count
                },
                Err(e) => {
                    &&& (e == Error::KittyNotExist <==> !old(self).kitty_of@.contains_key(kitty_id))
                    &&& (e == Error::NotOwner <==> old(self).kitty_of@.contains_key(kitty_id) && old(
                        self,
                    ).owner_of@[kitty_id] != who)
                },
            },
    {
        let relisted: Kitty = match self.kitty_of.get(&kitty_id) {
            Some(k) => Kitty { dna: k.dna.clone(), price: new_price },
            None => {
                return Err(Error::KittyNotExist);
            },
        };
        let current = match self.owner_of.get(&kitty_id) {
            Some(o) => *o,
            None => {
                return Err(Error::KittyNotExist);
            },
        };
        if current != who {
            return Err(Error::NotOwner);
        }
        proof {
            assert(relisted.dna@ =~= self.kitty_of@[kitty_id].dna@);
        }
        self.kitty_of.insert(kitty_id, relisted);
        Ok(Event::PriceChange(who, kitty_id))
    }

    /// Mints a new asset for `who` whose attribute vector combines the two
    /// parents' vectors bit by bit under a pseudo-randomly drawn selector.
    /// The caller need not own either parent, and no deposit is taken.
    /// Rejected when both parents are the same asset, when either parent
    /// does not exist, or when the allocator is exhausted; a rejected call
    /// changes nothing.
    pub fn breed(&mut self, who: u64, kitty_id_1: u64, kitty_id_2: u64, entropy: &Entropy) -> (r:
        Result<Event, Error>)
        requires
            old(self).inv(),
        ensures
            final(self).inv(),
            final(self).config == old(self).config,
            r is Err ==> *final(self) == *old(self),
            r is Ok <==> (kitty_id_1 != kitty_id_2 && old(self).kitty_of@.contains_key(kitty_id_1)
                && old(self).kitty_of@.contains_key(kitty_id_2) && old(self).count != Some(
                u64::MAX,
            )),
            match r {
                Ok(ev) => ev matches Event::KittyBreed(o, id) && o == who && spec_minted(
                    *old(self),
                    *final(self),
                    who,
                    crossover(
                        derive_of(entropy.seed@, entropy.sequence),
                        old(self).kitty_of@[kitty_id_1].dna@,
                        old(self).kitty_of@[kitty_id_2].dna@,
                    ),
                    id,
                ),
                Err(e) => {
                    &&& (e == Error::SameParentIndex <==> kitty_id_1 == kitty_id_2)
                    &&& (e == Error::KittyNotExist <==> kitty_id_1 != kitty_id_2 && !(old(
                        self,
                    ).kitty_of@.contains_key(kitty_id_1) && old(self).kitty_of@.contains_key(
                        kitty_id_2,
                    )))
                    &&& (e == Error::KittiesCountOverflow <==> kitty_id_1 != kitty_id_2 && old(
                        self,
                    ).kitty_of@.contains_key(kitty_id_1) && old(self).kitty_of@.contains_key(
                        kitty_id_2,
                    ) && old(self).count == Some(u64::MAX))
                },
            },
    {
        if kitty_id_1 == kitty_id_2 {
            return Err(Error::SameParentIndex);
        }
        let dna1: Vec<u8> = match self.kitty_of.get(&kitty_id_1) {
            Some(k) => k.dna.clone(),
            None => {
                return Err(Error::KittyNotExist);
            },
        };
        let dna2: Vec<u8> = match self.kitty_of.get(&kitty_id_2) {
            Some(k) => k.dna.clone(),
            None => {
                return Err(Error::KittyNotExist);
            },
        };
        proof {
            assert(dna1@ =~= self.kitty_of@[kitty_id_1].dna@);
            assert(dna2@ =~= self.kitty_of@[kitty_id_2].dna@);
        }
        let selector = random_value(entropy);
        let new_dna = crate::kitty::combine_dna(&selector, &dna1, &dna2);
        match self.mint(who, Some(new_dna), entropy) {
            Ok(kitty_id) => Ok(Event::KittyBreed(who, kitty_id)),
            Err(e) => Err(e),
        }
    }

    /// Transfers the asset to `who` against payment of `bid_price` to the
    /// current owner, and clears the listing price. The preconditions are
    /// checked in order: the caller's free balance must cover the bid, the
    /// asset must exist, the caller must not already own it, it must be
    /// listed, and the asking price must not exceed the bid; then the
    /// currency collaborator must accept the payment. A rejected call
    /// leaves the registry and the ledger untouched, and the paid amount is
    /// the bid, not the asking price.
    pub fn buy(&mut self, ledger: &mut Ledger, who: u64, kitty_id: u64, bid_price: u64) -> (r:
        Result<Event, Error>)
        requires
            old(self).inv(),
            old(ledger).inv(),
        ensures
            final(self).inv(),
            final(ledger).inv(),
            final(self).config == old(self).config,
            r is Err ==> *final(self) == *old(self) && *final(ledger) == *old(ledger),
            r is Ok <==> spec_buy_ok(*old(self), *old(ledger), who, kitty_id, bid_price),
            match r {
                Ok(ev) => {
                    let seller = old(self).owner_of@[kitty_id];
                    &&& ev == Event::Bought(who, seller, kitty_id, bid_price)
                    &&& final(self).owner_of@ == old(self).owner_of@.insert(kitty_id, who)
                    &&& kitty_price_updated(
                        old(self).kitty_of@,
                        final(self).kitty_of@,
                        kitty_id,
                        None::<u64>,
                    )
                    &&& final(self).count == old(self).count
                    &&& final(ledger).spec_free(who) == old(ledger).spec_free(who) - bid_price
                    &&& final(ledger).spec_free(seller) == old(ledger).spec_free(seller)
                        + bid_price
                    &&& final(ledger).spec_reserved(who) == old(ledger).spec_reserved(who)
                    &&& final(ledger).spec_reserved(seller) == old(ledger).spec_reserved(seller)
                    &&& final(ledger).others_unchanged2(*old(ledger), who, seller)
                },
                Err(e) => {
                    let free_ok = old(ledger).spec_free(who) >= bid_price;
                    let exists = old(self).kitty_of@.contains_key(kitty_id);
                    let owner_ok = exists && old(self).owner_of@[kitty_id] != who;
                    let listed = owner_ok && old(self).kitty_of@[kitty_id].price is Some;
                    &&& (e == Error::NotEnoughBalance <==> !free_ok)
                    &&& (e == Error::KittyNotExist <==> free_ok && !exists)
                    &&& (e == Error::OwnerCanNotBuy <==> free_ok && exists && old(
                        self,
                    ).owner_of@[kitty_id] == who)
                    &&& (e == Error::KittyNotForSale <==> free_ok && owner_ok && old(
                        self,
                    ).kitty_of@[kitty_id].price is None)
                    &&& (e == Error::KittyBidPriceTooLow <==> free_ok && listed && (old(
                        self,
                    ).kitty_of@[kitty_id].price matches Some(ask) && ask > bid_price))
                    &&& (e == Error::BalanceTransferFailed <==> free_ok && listed && (old(
                        self,
                    ).kitty_of@[kitty_id].price matches Some(ask) && ask <= bid_price && !old(
                        ledger,
                    ).can_transfer_keep_alive(who, old(self).owner_of@[kitty_id], bid_price)))
                },
            },
    {
        if ledger.free_balance(who) < bid_price {
            return Err(Error::NotEnoughBalance);
        }
        let bought: Kitty = match self.kitty_of.get(&kitty_id) {
            Some(k) => Kitty { dna: k.dna.clone(), price: k.price },
            None => {
                return Err(Error::KittyNotExist);
            },
        };
        let seller = match self.owner_of.get(&kitty_id) {
            Some(o) => *o,
            None => {
                return Err(Error::KittyNotExist);
            },
        };
        if seller == who {
            return Err(Error::OwnerCanNotBuy);
        }
        match bought.price {
            Some(ask_price) => {
                if ask_price > bid_price {
                    return Err(Error::KittyBidPriceTooLow);
                }
            },
            None => {
                return Err(Error::KittyNotForSale);
            },
        }
        match ledger.transfer_keep_alive(who, seller, bid_price) {
            Ok(()) => {},
            Err(_) => {
                return Err(Error::BalanceTransferFailed);
            },
        }
        proof {
            assert(bought.dna@ =~= self.kitty_of@[kitty_id].dna@);
        }
        self.owner_of.insert(kitty_id, who);
        self.kitty_of.insert(kitty_id, Kitty { dna: bought.dna, price: None });
        Ok(Event::Bought(who, seller, kitty_id, bid_price))
    }
}

/// All the preconditions of a purchase at once: the buyer can cover the
/// bid, the asset exists, the buyer is not its owner, it is listed at an
/// asking price no greater than the bid, and the currency collaborator
/// accepts moving the bid from buyer to owner.
pub open spec fn spec_buy_ok(p: Pallet, l: Ledger, who: u64, kitty_id: u64, bid: u64) -> bool {
    &&& l.spec_free(who) >= bid
    &&& p.kitty_of@.contains_key(kitty_id)
    &&& p.owner_of@[kitty_id] != who
    &&& p.kitty_of@[kitty_id].price matches Some(ask) && ask <= bid
    &&& l.can_transfer_keep_alive(who, p.owner_of@[kitty_id], bid)
}

/// A fact emitted on each successful operation, describing what changed.
#[derive(Clone, Copy, Debug, PartialEq, Eq, Structural)]
pub enum Event {
    /// A fresh asset was minted: (owner, new identifier).
    KittyCreate(u64, u64),
    /// Ownership moved without payment: (from, to, identifier).
    KittyTransfered(u64, u64, u64),
    /// A listing price was set or cleared: (owner, identifier).
    PriceChange(u64, u64),
    /// A listed asset was sold: (buyer, seller, identifier, price paid).
    Bought(u64, u64, u64, u64),
    /// Two assets were combined into a new one: (owner, new identifier).
    KittyBreed(u64, u64),
}

/// Pre-populates the registry before any operation runs: one
/// (account, attribute vector) pair per asset to mint, supplied by the
/// host. Building bypasses the deposit that `create` requires.
pub struct GenesisConfig {
    pub kitties: Vec<(u64, Vec<u8>)>,
}

impl Default for GenesisConfig {
    fn default() -> (r: GenesisConfig)
        ensures
            r.kitties@.len() == 0,
    {
        GenesisConfig { kitties: Vec::new() }
    }
}

/// The first `n` genesis pairs of `pairs` have been minted onto `cur`, on
/// top of a registry whose allocator had handed out `base` identifiers:
/// the pair at position `k` sits under identifier `base + 1 + k`, with its
/// account as owner, its attribute vector, and no listing price.
/// The genesis pair at position `k` sits in `cur` under identifier
/// `base + 1 + k`, with its account as owner, its attribute vector, and no
/// listing price.
pub open spec fn genesis_pair_at(pairs: Seq<(u64, Vec<u8>)>, base: int, cur: Pallet, k: int) -> bool {
    let id = (base + 1 + k) as u64;
    &&& cur.kitty_of@.contains_key(id)
    &&& cur.kitty_of@[id].dna@ == pairs[k].1@
    &&& cur.kitty_of@[id].price is None
    &&& cur.owner_of@.contains_key(id)
    &&& cur.owner_of@[id] == pairs[k].0
}

pub open spec fn genesis_prefix_built(
    pairs: Seq<(u64, Vec<u8>)>,
    base: int,
    cur: Pallet,
    n: int,
) -> bool {
    forall|k: int| 0 <= k < n ==> #[trigger] genesis_pair_at(pairs, base, cur, k)
}

/// Outside the identifier range `(base, base + n]`, the asset and
/// ownership stores of `cur` agree exactly with those of `orig`.
pub open spec fn stores_agree_outside(orig: Pallet, cur: Pallet, base: int, n: int) -> bool {
    forall|id: u64|
        #![trigger cur.kitty_of@.contains_key(id)]
        #![trigger orig.kitty_of@.contains_key(id)]
        #![trigger cur.owner_of@.contains_key(id)]
        #![trigger orig.owner_of@.contains_key(id)]
        !(base < id as int <= base + n) ==> {
            &&& (cur.kitty_of@.contains_key(id) <==> orig.kitty_of@.contains_key(id))
            &&& (orig.kitty_of@.contains_key(id) ==> cur.kitty_of@[id] == orig.kitty_of@[id])
            &&& (cur.owner_of@.contains_key(id) <==> orig.owner_of@.contains_key(id))
            &&& (orig.owner_of@.contains_key(id) ==> cur.owner_of@[id] == orig.owner_of@[id])
        }
}

impl GenesisConfig {
    /// Mints one asset per configured pair, in order: the pair at position
    /// `i` receives identifier `base + 1 + i`, where `base` is the number
    /// of identifiers already allocated. Assets outside that range are
    /// untouched.
    pub fn build(&self, pallet: &mut Pallet)
        requires
            old(pallet).inv(),
            forall|i: int| 0 <= i < self.kitties@.len() ==> self.kitties@[i].1@.len() == 16,
            spec_count_base(old(pallet).count) + self.kitties@.len() <= u64::MAX,
        ensures
            final(pallet).inv(),
            final(pallet).config == old(pallet).config,
            self.kitties@.len() == 0 ==> *final(pallet) == *old(pallet),
            self.kitties@.len() > 0 ==> final(pallet).count == Some(
                (spec_count_base(old(pallet).count) + self.kitties@.len()) as u64,
            ),
            genesis_prefix_built(
                self.kitties@,
                spec_count_base(old(pallet).count),
                *final(pallet),
                self.kitties@.len() as int,
            ),
            stores_agree_outside(
                *old(pallet),
                *final(pallet),
                spec_count_base(old(pallet).count),
                self.kitties@.len() as int,
            ),
    {
        let ghost base: int = spec_count_base(old(pallet).count);
        let mut i: usize = 0;
        while i < self.kitties.len()
            invariant
                pallet.inv(),
                pallet.config == old(pallet).config,
                i <= self.kitties@.len(),
                forall|k: int| 0 <= k < self.kitties@.len() ==> self.kitties@[k].1@.len() == 16,
                base == spec_count_base(old(pallet).count),
                base + self.kitties@.len() <= u64::MAX,
                i == 0 ==> *pallet == *old(pallet),
                i > 0 ==> pallet.count == Some((base + i) as u64),
                spec_count_base(pallet.count) == base + i,
                genesis_prefix_built(self.kitties@, base, *pallet, i as int),
                stores_agree_outside(*old(pallet), *pallet, base, i as int),
            decreases self.kitties@.len() - i,
        {
            let acct: u64 = self.kitties[i].0;
            let dna: Vec<u8> = self.kitties[i].1.clone();
            proof {
                assert(dna@ =~= self.kitties@[i as int].1@);
            }
            let ghost pre_pallet: Pallet = *pallet;
            let r = pallet.mint_resolved(acct, dna);
            proof {
                assert(r is Ok);
                let idn = r->Ok_0;
                assert(spec_minted(pre_pallet, *pallet, acct, self.kitties@[i as int].1@, idn));
                assert(idn as int == base + 1 + i);
                assert forall|k: int| 0 <= k < i + 1 implies #[trigger] genesis_pair_at(
                    self.kitties@,
                    base,
                    *pallet,
                    k,
                ) by {
                    let id = (base + 1 + k) as u64;
                    if k < i {
                        assert(genesis_pair_at(self.kitties@, base, pre_pallet, k));
                        assert(id != idn);
                        assert(pallet.kitty_of@.contains_key(id));
                        assert(pallet.kitty_of@[id] == pre_pallet.kitty_of@[id]);
                        assert(pallet.owner_of@ == pre_pallet.owner_of@.insert(idn, acct));
                        assert(pallet.owner_of@.contains_key(id));
                        assert(pallet.owner_of@[id] == pre_pallet.owner_of@[id]);
                    } else {
                        assert(id == idn);
                    }
                }
                assert(genesis_prefix_built(self.kitties@, base, *pallet, i + 1));
                assert forall|id: u64| !(base < id as int <= base + i + 1) implies {
                    &&& (pallet.kitty_of@.contains_key(id) <==> old(pallet).kitty_of@.contains_key(
                        id,
                    ))
                    &&& (old(pallet).kitty_of@.contains_key(id) ==> pallet.kitty_of@[id] == old(
                        pallet,
                    ).kitty_of@[id])
                    &&& (pallet.owner_of@.contains_key(id) <==> old(pallet).owner_of@.contains_key(
                        id,
                    ))
                    &&& (old(pallet).owner_of@.contains_key(id) ==> pallet.owner_of@[id] == old(
                        pallet,
                    ).owner_of@[id])
                } by {
                    assert(id != idn);
                    assert(pallet.kitty_of@.contains_key(id) <==> pre_pallet.kitty_of@.contains_key(
                        id,
                    ));
                    assert(pre_pallet.kitty_of@.contains_key(id) <==> old(
                        pallet,
                    ).kitty_of@.contains_key(id));
                    if pre_pallet.kitty_of@.contains_key(id) {
                        assert(pallet.kitty_of@[id] == pre_pallet.kitty_of@[id]);
                        assert(pre_pallet.kitty_of@[id] == old(pallet).kitty_of@[id]);
                    }
                    assert(pallet.owner_of@ == pre_pallet.owner_of@.insert(idn, acct));
                    assert(pallet.owner_of@.contains_key(id) <==> pre_pallet.owner_of@.contains_key(
                        id,
                    ));
                    assert(pre_pallet.owner_of@.contains_key(id) <==> old(
                        pallet,
                    ).owner_of@.contains_key(id));
                    if pre_pallet.owner_of@.contains_key(id) {
                        assert(pallet.owner_of@[id] == pre_pallet.owner_of@[id]);
                        assert(pre_pallet.owner_of@[id] == old(pallet).owner_of@[id]);
                    }
                }
                assert(stores_agree_outside(*old(pallet), *pallet, base, i + 1));
            }
            i += 1;
        }
    }
}

/// The first half of the asset/ownership round trip, as a law: in every
/// well-formed registry an asset record exists exactly for the identifiers
/// that have an ownership record, so an identifier minted with both can be
/// read back through either store, and an identifier without an ownership
/// record has no asset record.
pub proof fn lemma_asset_iff_owner(p: Pallet)
    requires
        p.inv(),
    ensures
        forall|id: u64|
            #[trigger] p.kitty_of@.contains_key(id) <==> p.owner_of@.contains_key(id),
{
}

/// Allocator monotonicity, as a law: in every well-formed registry whose
/// allocator is not exhausted, the identifier the next successful mint
/// hands out is strictly greater than every identifier allocated so far —
/// so across any sequence of successful mints the identifiers strictly
/// increase and never repeat.
pub proof fn lemma_allocator_monotonic(p: Pallet)
    requires
        p.inv(),
        p.count != Some(u64::MAX),
    ensures
        forall|id: u64|
            #[trigger] p.kitty_of@.contains_key(id) ==> (id as int) < spec_next_id(p.count),
        !p.kitty_of@.contains_key((spec_next_id(p.count)) as u64),
{
}

/// Allocator monotonicity across calls: when one successful mint follows
/// another, the second identifier is strictly greater than the first, so a
/// sequence of successful mints allocates strictly increasing identifiers
/// with no repeats.
pub proof fn lemma_consecutive_mints_increase(
    p1: Pallet,
    p2: Pallet,
    p3: Pallet,
    owner1: u64,
    owner2: u64,
    dna1: Seq<u8>,
    dna2: Seq<u8>,
    id1: u64,
    id2: u64,
)
    requires
        spec_minted(p1, p2, owner1, dna1, id1),
        spec_minted(p2, p3, owner2, dna2, id2),
    ensures
        id2 > id1,
{
}

} // verus!
