//! The issuance service that the mint coordinator talks to.
//!
//! The service owns the issued collectible tokens. Its interface is small:
//! a privileged `mint`, the supply and balance queries, an ownership
//! handover, and a metadata lookup. The coordinator acts on exactly two
//! outcomes of a call — confirmed success and confirmed refusal — and both
//! are stated here, so everything the coordinator concludes from a call is
//! proved rather than assumed.

use vstd::prelude::*;

verus! {

/// The record of one issuance: token `id` moved from `from` to `to`.
/// `from` is `None` for a freshly minted token.
#[derive(Clone, PartialEq, Eq, Debug)]
pub struct Transfer {
    pub from: Option<u64>,
    pub to: Option<u64>,
    pub id: u128,
}

/// The metadata attributes the collection carries.
#[derive(Clone, Copy, PartialEq, Eq, Debug)]
pub enum AttributeKey {
    Name,
    Description,
    Image,
}

/// Why the issuance service refused a call.
#[derive(Clone, Copy, PartialEq, Eq, Debug)]
pub enum WizardError {
    /// The caller is not the designated privileged caller.
    CallerNotOwner,
    /// The requested token identifier was already issued.
    TokenExists,
}

/// Whether some issued token carries the identifier `id`.
pub open spec fn spec_has_token(tokens: Seq<(u128, u64)>, id: u128) -> bool {
    exists|i: int| 0 <= i < tokens.len() && tokens[i].0 == id
}

/// How many issued tokens the account holds.
pub open spec fn count_held(tokens: Seq<(u128, u64)>, account: u64) -> nat
    decreases tokens.len(),
{
    if tokens.len() == 0 {
        0
    } else {
        count_held(tokens.drop_last(), account) + if tokens.last().1 == account {
            1nat
        } else {
            0nat
        }
    }
}

/// The issuance service: the issued tokens, the privileged caller allowed
/// to mint, the collection's metadata, and the emitted transfer events.
pub struct Wizard {
    /// The issued tokens, in order of issuance: identifier and holder.
    pub tokens: Vec<(u128, u64)>,
    /// The one account allowed to mint.
    pub owner: u64,
    /// Collection metadata; a key may be unset.
    pub name: Option<String>,
    pub description: Option<String>,
    pub image: Option<String>,
    /// Every transfer event emitted so far, oldest first.
    pub events: Vec<Transfer>,
}

impl Wizard {
    /// No two issued tokens carry the same identifier.
    pub open spec fn wf(self) -> bool {
        forall|i: int, j: int|
            0 <= i < j < self.tokens@.len() ==> (#[trigger] self.tokens@[i]).0 != (
            #[trigger] self.tokens@[j]).0
    }

    /// Sets up the service with no tokens issued, the creating account as
    /// the privileged caller, and the collection's metadata filled in.
    pub fn new(caller: u64) -> (r: Wizard)
        ensures
            r.owner == caller,
            r.tokens@.len() == 0,
            r.events@.len() == 0,
            r.name is Some,
            r.name->0@ == "YAY"@,
            r.description is Some,
            r.description->0@ == "AstarAcademy NFT exercise"@,
            r.image is Some,
            r.image->0@ == "https://bafkreihgob3knpzzmhiw66grmkuq3qa2ukvdseksbaxkxuiehwkhuniyfy.ipfs.nftstorage.link"@,
            r.wf(),
    {
        Wizard {
            tokens: Vec::new(),
            owner: caller,
            name: Some(String::from_str("YAY")),
            description: Some(String::from_str("AstarAcademy NFT exercise")),
            image: Some(
                String::from_str(
                    "https://bafkreihgob3knpzzmhiw66grmkuq3qa2ukvdseksbaxkxuiehwkhuniyfy.ipfs.nftstorage.link",
                ),
            ),
            events: Vec::new(),
        }
    }

    /// The account currently allowed to mint.
    pub fn owner(&self) -> (r: u64)
        ensures
            r == self.owner,
    {
        self.owner
    }

    /// Hands the mint privilege to `new_owner`; only the current owner may.
    pub fn transfer_ownership(&mut self, caller: u64, new_owner: u64) -> (r: Result<
        (),
        WizardError,
    >)
        ensures
            r is Ok <==> old(self).owner == caller,
            r is Ok ==> final(self).owner == new_owner
                && final(self).tokens == old(self).tokens
                && final(self).name == old(self).name
                && final(self).description == old(self).description
                && final(self).image == old(self).image
                && final(self).events == old(self).events,
            r is Err ==> r == Err::<(), WizardError>(WizardError::CallerNotOwner)
                && *final(self) == *old(self),
    {
        if self.owner != caller {
            return Err(WizardError::CallerNotOwner);
        }
        self.owner = new_owner;
        Ok(())
    }

    /// How many tokens have been issued in all.
    pub fn total_supply(&self) -> (r: u128)
        ensures
            r == self.tokens@.len(),
    {
        self.tokens.len() as u128
    }

    /// How many issued tokens `account` holds.
    pub fn balance_of(&self, account: u64) -> (r: usize)
        ensures
            r == count_held(self.tokens@, account),
    {
        let mut held: usize = 0;
        let mut i: usize = 0;
        proof {
            assert(self.tokens@.take(0) =~= Seq::<(u128, u64)>::empty());
        }
        while i < self.tokens.len()
            invariant
                i <= self.tokens@.len(),
                held <= i,
                held == count_held(self.tokens@.take(i as int), account),
            decreases self.tokens@.len() - i,
        {
            proof {
                assert(self.tokens@.take(i + 1).drop_last() =~= self.tokens@.take(i as int));
                assert(self.tokens@.take(i + 1).last() == self.tokens@[i as int]);
            }
            if self.tokens[i].1 == account {
                held = held + 1;
            }
            i = i + 1;
        }
        proof {
            assert(self.tokens@.take(self.tokens@.len() as int) =~= self.tokens@);
        }
        held
    }

    /// Whether some issued token carries the identifier `id`.
    fn has_token(&self, id: u128) -> (r: bool)
        ensures
            r == spec_has_token(self.tokens@, id),
    {
        let mut i: usize = 0;
        while i < self.tokens.len()
            invariant
                i <= self.tokens@.len(),
                forall|j: int| 0 <= j < i ==> (#[trigger] self.tokens@[j]).0 != id,
            decreases self.tokens@.len() - i,
        {
            if self.tokens[i].0 == id {
                return true;
            }
            i = i + 1;
        }
        false
    }

    /// The metadata attribute stored under `key`, if any.
    pub fn get_attribute(&self, key: AttributeKey) -> (r: Option<String>)
        ensures
            r == self.spec_attribute(key),
    {
        let stored = match key {
            AttributeKey::Name => &self.name,
            AttributeKey::Description => &self.description,
            AttributeKey::Image => &self.image,
        };
        match stored {
            Some(s) => Some(s.clone()),
            None => None,
        }
    }

    /// The metadata attribute stored under `key`.
    pub open spec fn spec_attribute(self, key: AttributeKey) -> Option<String> {
        match key {
            AttributeKey::Name => self.name,
            AttributeKey::Description => self.description,
            AttributeKey::Image => self.image,
        }
    }

    /// Records that token `id` was issued, as a transfer from nobody.
    pub fn _emit_transfer_event(&mut self, from: Option<u64>, to: Option<u64>, id: u128)
        ensures
            final(self).events@ == old(self).events@.push((Transfer { from, to, id })),
            final(self).tokens == old(self).tokens,
            final(self).owner == old(self).owner,
            final(self).name == old(self).name,
            final(self).description == old(self).description,
            final(self).image == old(self).image,
    {
        self.events.push(Transfer { from, to, id });
    }

    /// Issues token `id` to `account`. Only the privileged caller may, and
    /// an identifier is issued at most once: on success the token list
    /// grows by exactly `(id, account)` and a transfer event is emitted;
    /// on refusal nothing changes.
    pub fn mint(&mut self, caller: u64, account: u64, id: u128) -> (r: Result<(), WizardError>)
        ensures
            r is Ok <==> old(self).owner == caller && !spec_has_token(old(self).tokens@, id),
            old(self).owner != caller ==> r == Err::<(), WizardError>(WizardError::CallerNotOwner),
            old(self).owner == caller && spec_has_token(old(self).tokens@, id) ==> r == Err::<
                (),
                WizardError,
            >(WizardError::TokenExists),
            r is Err ==> *final(self) == *old(self),
            r is Ok ==> final(self).tokens@ == old(self).tokens@.push((id, account))
                && final(self).events@ == old(self).events@.push(
                (Transfer { from: None, to: Some(account), id }),
            )
                && final(self).owner == old(self).owner
                && final(self).name == old(self).name
                && final(self).description == old(self).description
                && final(self).image == old(self).image,
            old(self).wf() ==> final(self).wf(),
    {
        if self.owner != caller {
            return Err(WizardError::CallerNotOwner);
        }
        if self.has_token(id) {
            return Err(WizardError::TokenExists);
        }
        self.tokens.push((id, account));
        self._emit_transfer_event(None, Some(account), id);
        proof {
            if old(self).wf() {
                assert forall|i: int, j: int|
                    0 <= i < j < self.tokens@.len() implies (#[trigger] self.tokens@[i]).0 != (
                #[trigger] self.tokens@[j]).0 by {
                    if j == self.tokens@.len() - 1 {
                        assert(self.tokens@[i] == old(self).tokens@[i]);
                        assert(!spec_has_token(old(self).tokens@, id));
                    }
                }
            }
        }
        Ok(())
    }
}

} // verus!
