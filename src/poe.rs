//! A registry of claims: opaque byte strings, each bound to the account that
//! registered it and the block at which it was registered or last moved.
use vstd::prelude::*;

use crate::currency::AccountId;

verus! {

/// A block height supplied by the host.
pub type BlockNumber = u64;

/// The registry's parameters.
#[derive(Clone, Copy, Debug, PartialEq, Eq, Structural)]
pub struct Config {
    /// The longest claim accepted, in bytes.
    pub max_length: u8,
}

/// What a successful command announces.
#[derive(Debug, PartialEq, Eq)]
pub enum Event {
    /// `(owner, claim)`: a claim was registered.
    ClaimCreated(AccountId, Vec<u8>),
    /// `(owner, claim)`: a claim was revoked.
    ClaimRevoked(AccountId, Vec<u8>),
    /// `(new owner, claim)`: a claim was handed to another account.
    ClaimTransfered(AccountId, Vec<u8>),
}

/// Why a command was refused.
#[derive(Clone, Copy, Debug, PartialEq, Eq, Structural)]
pub enum Error {
    /// The claim is already registered.
    ProofAlreadyClaimed,
    /// The claim is not registered.
    NoSuchProof,
    /// The caller does not own the claim.
    NotProofOwner,
    /// The claim would go to the account that already owns it.
    NoSameOwner,
    /// The claim is longer than the configured maximum.
    NoMoreMaxLength,
}

/// A registered claim.
#[derive(Debug, PartialEq, Eq)]
pub struct Proof {
    pub claim: Vec<u8>,
    pub owner: AccountId,
    pub block_number: BlockNumber,
}

/// The registry's state.
pub struct Pallet {
    pub config: Config,
    /// The current block height, as the host reports it.
    pub block_number: BlockNumber,
    /// The registered claims, each at most once.
    pub proofs: Vec<Proof>,
    /// Every event announced so far, oldest first.
    pub events: Vec<Event>,
}

/// Whether `a` and `b` hold the same bytes.
fn same_bytes(a: &Vec<u8>, b: &Vec<u8>) -> (r: bool)
    ensures
        r == (a@ == b@),
{
    if a.len() != b.len() {
        return false;
    }
    let mut i: usize = 0;
    while i < a.len()
        invariant
            a@.len() == b@.len(),
            0 <= i <= a@.len(),
            forall|j: int| 0 <= j < i ==> a@[j] == b@[j],
        decreases a@.len() - i,
    {
        if a[i] != b[i] {
            return false;
        }
        i = i + 1;
    }
    assert(a@ =~= b@);
    true
}

impl Pallet {
    /// No claim is registered twice.
    pub open spec fn wf(&self) -> bool {
        forall|i: int, j: int|
            0 <= i < self.proofs@.len() && 0 <= j < self.proofs@.len() && i != j ==> #[trigger] self.proofs@[i].claim@
                != #[trigger] self.proofs@[j].claim@
    }

    /// Whether `claim` is registered.
    pub open spec fn claimed(&self, claim: Seq<u8>) -> bool {
        exists|i: int| 0 <= i < self.proofs@.len() && #[trigger] self.proofs@[i].claim@ == claim
    }

    /// Where `claim` is registered, when it is.
    pub open spec fn index_of(&self, claim: Seq<u8>) -> int {
        choose|i: int| 0 <= i < self.proofs@.len() && #[trigger] self.proofs@[i].claim@ == claim
    }

    /// An empty registry at block 0.
    pub fn new(config: Config) -> (r: Pallet)
        ensures
            r.wf(),
            r.config == config,
            r.block_number == 0,
            r.proofs@.len() == 0,
            r.events@.len() == 0,
    {
        Pallet { config, block_number: 0, proofs: Vec::new(), events: Vec::new() }
    }

    /// Sets the block height the host reports for the next command.
    pub fn set_block_number(&mut self, block_number: BlockNumber)
        ensures
            final(self).block_number == block_number,
            final(self).config == old(self).config,
            final(self).proofs@ == old(self).proofs@,
            final(self).events@ == old(self).events@,
    {
        self.block_number = block_number;
    }

    /// Where `claim` is registered, if it is.
    fn position(&self, claim: &Vec<u8>) -> (r: Option<usize>)
        requires
            self.wf(),
        ensures
            r is None <==> !self.claimed(claim@),
            r matches Some(i) ==> i == self.index_of(claim@) && self.proofs@[i as int].claim@ == claim@,
    {
        let mut i: usize = 0;
        while i < self.proofs.len()
            invariant
                self.wf(),
                0 <= i <= self.proofs@.len(),
                forall|j: int| 0 <= j < i ==> #[trigger] self.proofs@[j].claim@ != claim@,
            decreases self.proofs@.len() - i,
        {
            if same_bytes(&self.proofs[i].claim, claim) {
                proof {
                    assert(self.proofs@[i as int].claim@ == claim@);
                    assert(self.claimed(claim@));
                    let j = self.index_of(claim@);
                    assert(self.proofs@[j].claim@ == claim@);
                }
                return Some(i);
            }
            i = i + 1;
        }
        None
    }

    /// The owner of `claim` and the block at which it got it, if registered.
    pub fn proofs(&self, claim: &Vec<u8>) -> (r: Option<(AccountId, BlockNumber)>)
        requires
            self.wf(),
        ensures
            r is None <==> !self.claimed(claim@),
            r matches Some(p) ==> p == (
                self.proofs@[self.index_of(claim@)].owner,
                self.proofs@[self.index_of(claim@)].block_number,
            ),
    {
        match self.position(claim) {
            Some(i) => Some((self.proofs[i].owner, self.proofs[i].block_number)),
            None => None,
        }
    }

    /// Registers `claim` for `who` at the current block.
    pub fn create_claim(&mut self, who: AccountId, claim: Vec<u8>) -> (r: Result<(), Error>)
        requires
            old(self).wf(),
        ensures
            final(self).wf(),
            final(self).config == old(self).config,
            final(self).block_number == old(self).block_number,
            r is Ok <==> !old(self).claimed(claim@) && claim@.len() <= old(self).config.max_length,
            r == Err::<(), Error>(Error::ProofAlreadyClaimed) <==> old(self).claimed(claim@),
            r == Err::<(), Error>(Error::NoMoreMaxLength) <==> !old(self).claimed(claim@) && claim@.len()
                > old(self).config.max_length,
            r is Err ==> final(self).proofs@ == old(self).proofs@ && final(self).events@ == old(self).events@,
            r is Ok ==> {
                &&& final(self).proofs@.len() == old(self).proofs@.len() + 1
                &&& final(self).proofs@.drop_last() == old(self).proofs@
                &&& final(self).proofs@.last().claim@ == claim@
                &&& final(self).proofs@.last().owner == who
                &&& final(self).proofs@.last().block_number == old(self).block_number
                &&& final(self).events@ == old(self).events@.push(Event::ClaimCreated(who, claim))
            },
    {
        if self.position(&claim).is_some() {
            return Err(Error::ProofAlreadyClaimed);
        }
        if claim.len() > self.config.max_length as usize {
            return Err(Error::NoMoreMaxLength);
        }
        let stored = claim.clone();
        assert(stored@ =~= claim@);
        self.proofs.push(Proof { claim: stored, owner: who, block_number: self.block_number });
        assert(self.proofs@.drop_last() =~= old(self).proofs@);
        self.events.push(Event::ClaimCreated(who, claim));
        Ok(())
    }

    /// Removes `claim`, which `who` must own.
    pub fn revoke_claim(&mut self, who: AccountId, claim: Vec<u8>) -> (r: Result<(), Error>)
        requires
            old(self).wf(),
        ensures
            final(self).wf(),
            final(self).config == old(self).config,
            final(self).block_number == old(self).block_number,
            r is Ok <==> old(self).claimed(claim@) && old(self).proofs@[old(self).index_of(claim@)].owner == who,
            r == Err::<(), Error>(Error::NoSuchProof) <==> !old(self).claimed(claim@),
            r == Err::<(), Error>(Error::NotProofOwner) <==> old(self).claimed(claim@) && old(
                self,
            ).proofs@[old(self).index_of(claim@)].owner != who,
            r is Err ==> final(self).proofs@ == old(self).proofs@ && final(self).events@ == old(self).events@,
            r is Ok ==> {
                &&& final(self).proofs@ == old(self).proofs@.remove(old(self).index_of(claim@))
                &&& final(self).events@ == old(self).events@.push(Event::ClaimRevoked(who, claim))
            },
    {
        let i = match self.position(&claim) {
            Some(i) => i,
            None => return Err(Error::NoSuchProof),
        };
        if self.proofs[i].owner != who {
            return Err(Error::NotProofOwner);
        }
        self.proofs.remove(i);
        assert forall|a: int, b: int|
            0 <= a < self.proofs@.len() && 0 <= b < self.proofs@.len() && a != b implies #[trigger] self.proofs@[a].claim@
                != #[trigger] self.proofs@[b].claim@ by {
            let oa = if a < i { a } else { a + 1 };
            let ob = if b < i { b } else { b + 1 };
            assert(self.proofs@[a] == old(self).proofs@[oa]);
            assert(self.proofs@[b] == old(self).proofs@[ob]);
        }
        self.events.push(Event::ClaimRevoked(who, claim));
        Ok(())
    }

    /// Hands `claim`, which `who` must own, to `to` at the current block.
    pub fn transfer_claim(&mut self, who: AccountId, claim: Vec<u8>, to: AccountId) -> (r: Result<(), Error>)
        requires
            old(self).wf(),
        ensures
            final(self).wf(),
            final(self).config == old(self).config,
            final(self).block_number == old(self).block_number,
            r is Ok <==> old(self).claimed(claim@) && old(self).proofs@[old(self).index_of(claim@)].owner == who,
            r == Err::<(), Error>(Error::NoSuchProof) <==> !old(self).claimed(claim@),
            r == Err::<(), Error>(Error::NotProofOwner) <==> old(self).claimed(claim@) && old(
                self,
            ).proofs@[old(self).index_of(claim@)].owner != who,
            r is Err ==> final(self).proofs@ == old(self).proofs@ && final(self).events@ == old(self).events@,
            r is Ok ==> {
                let i = old(self).index_of(claim@);
                &&& final(self).proofs@ == old(self).proofs@.update(
                    i,
                    Proof {
                        claim: old(self).proofs@[i].claim,
                        owner: to,
                        block_number: old(self).block_number,
                    },
                )
                &&& final(self).events@ == old(self).events@.push(Event::ClaimTransfered(to, claim))
            },
    {
        let i = match self.position(&claim) {
            Some(i) => i,
            None => return Err(Error::NoSuchProof),
        };
        if self.proofs[i].owner != who {
            return Err(Error::NotProofOwner);
        }
        let mut entry = self.proofs.remove(i);
        entry.owner = to;
        entry.block_number = self.block_number;
        self.proofs.insert(i, entry);
        assert(self.proofs@ =~= old(self).proofs@.update(
            i as int,
            Proof {
                claim: old(self).proofs@[i as int].claim,
                owner: to,
                block_number: old(self).block_number,
            },
        ));
        self.events.push(Event::ClaimTransfered(to, claim));
        Ok(())
    }
}

} // verus!
