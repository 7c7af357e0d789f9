//! The eligibility engine and the mint coordinator.
//!
//! `Magink` owns one profile per account and a strictly increasing token
//! identifier counter. `start` opens a claim era, `claim` awards one badge
//! per elapsed era, and `mint_wizard` gates the one-time issuance of a
//! collectible token through the issuance service and reconciles the local
//! state with the call's outcome.
//!
//! The host serializes all calls and supplies the caller's identity and
//! the current block height; both come in as plain arguments.

use vstd::prelude::*;
use crate::error::Error;
use crate::profile::{spec_remaining, Profile};
use crate::store::{lookup, map_get, map_put};
use crate::wizard::{count_held, spec_has_token, Transfer, Wizard};

verus! {

/// How many badges activate the mint gate.
pub const MINT_QUOTA: u8 = 9;

/// How the badge count is held against the quota. The two readings
/// disagree once the count passes the quota, so the comparison is an
/// explicit choice made at construction.
#[derive(Clone, Copy, PartialEq, Eq, Debug)]
pub enum QuotaPolicy {
    /// Any count of at least `MINT_QUOTA` badges suffices.
    AtLeastQuota,
    /// Exactly `MINT_QUOTA` badges suffice; any other count fails.
    ExactQuota,
}

/// Whether `badges` opens the mint gate under `policy`.
pub open spec fn quota_met(policy: QuotaPolicy, badges: u8) -> bool {
    match policy {
        QuotaPolicy::AtLeastQuota => badges >= MINT_QUOTA,
        QuotaPolicy::ExactQuota => badges == MINT_QUOTA,
    }
}

/// The claim engine and mint coordinator.
pub struct Magink {
    /// The profiles, one per account that ever called `start`.
    pub users: Vec<(u64, Profile)>,
    /// The account under which the coordinator calls the issuance
    /// service; the service accepts mints from this account only.
    pub account: u64,
    /// The quota comparison in force.
    pub policy: QuotaPolicy,
    /// The identifier the next issued token will carry. Incremented only
    /// after a confirmed successful mint, so identifiers are handed out
    /// in order, none reused and none skipped.
    pub next_id: u128,
}

impl Magink {
    /// The profile stored for `account`, if any.
    pub open spec fn profile_of(self, account: u64) -> Option<Profile> {
        lookup(self.users@, account)
    }

    /// The badge count of `account`: zero without a profile.
    pub open spec fn badges_of(self, account: u64) -> u8 {
        match self.profile_of(account) {
            Some(p) => p.badges_claimed,
            None => 0,
        }
    }

    /// The remaining wait of `account` at block `now`: zero without a
    /// profile, by convention, so an unregistered account reads as
    /// immediately claimable.
    pub open spec fn remaining_of(self, account: u64, now: u32) -> u8 {
        match self.profile_of(account) {
            Some(p) => spec_remaining(p, now),
            None => 0,
        }
    }

    /// The block height never runs backwards, so whenever the host hands
    /// the engine a current block it is at least the stored era start.
    pub open spec fn time_ok(self, account: u64, now: u32) -> bool {
        self.profile_of(account) matches Some(p) ==> p.start_block <= now
    }

    /// The outcome of the local mint gates for `caller`, before the
    /// issuance service is involved: the identifier to request, or the
    /// error to return. The idempotency gate reads the service's balance,
    /// so a token issued once is seen whatever later happened locally.
    pub open spec fn mint_gate(self, wizard: Wizard, caller: u64) -> Result<u128, Error> {
        match self.profile_of(caller) {
            None => Err(Error::UserNotFound),
            Some(p) => if count_held(wizard.tokens@, caller) >= 1 {
                Err(Error::NftAlreadyClaimed)
            } else if !quota_met(self.policy, p.badges_claimed) {
                Err(Error::NotEnoughBadges)
            } else {
                Ok(self.next_id)
            },
        }
    }

    /// Sets up the service with no profiles and no token issued yet.
    /// `account` is the address under which the coordinator acts.
    pub fn new(account: u64, policy: QuotaPolicy) -> (r: Magink)
        ensures
            r.account == account,
            r.policy == policy,
            r.next_id == 0,
            r.users@.len() == 0,
            forall|a: u64| r.profile_of(a) is None,
    {
        Magink { users: Vec::new(), account, policy, next_id: 0 }
    }

    /// (Re)starts the claiming era for the caller: the profile is
    /// overwritten unconditionally, so any unclaimed progress is forfeited.
    pub fn start(&mut self, caller: u64, now: u32, era: u8)
        ensures
            final(self).profile_of(caller) == (Some(
                Profile { claim_era: era, start_block: now, badges_claimed: 0 },
            )),
            forall|a: u64| a != caller ==> final(self).profile_of(a) == old(self).profile_of(a),
            final(self).account == old(self).account,
            final(self).policy == old(self).policy,
            final(self).next_id == old(self).next_id,
    {
        let profile = Profile { claim_era: era, start_block: now, badges_claimed: 0 };
        map_put(&mut self.users, caller, profile);
    }

    /// The remaining wait of the caller at block `now`.
    pub fn get_remaining(&self, caller: u64, now: u32) -> (r: u8)
        requires
            self.time_ok(caller, now),
        ensures
            r == self.remaining_of(caller, now),
    {
        self.get_remaining_for(caller, now)
    }

    /// The remaining wait of the given account at block `now`.
    pub fn get_remaining_for(&self, account: u64, now: u32) -> (r: u8)
        requires
            self.time_ok(account, now),
        ensures
            r == self.remaining_of(account, now),
    {
        match map_get(&self.users, account) {
            Some(profile) => profile.remaining(now),
            None => 0,
        }
    }

    /// The profile of the given account.
    pub fn get_account_profile(&self, account: u64) -> (r: Option<Profile>)
        ensures
            r == self.profile_of(account),
    {
        map_get(&self.users, account)
    }

    /// The profile of the caller.
    pub fn get_profile(&self, caller: u64) -> (r: Option<Profile>)
        ensures
            r == self.profile_of(caller),
    {
        map_get(&self.users, caller)
    }

    /// The badge count of the caller.
    pub fn get_badges(&self, caller: u64) -> (r: u8)
        ensures
            r == self.badges_of(caller),
    {
        self.get_badges_for(caller)
    }

    /// The badge count of the given account.
    pub fn get_badges_for(&self, account: u64) -> (r: u8)
        ensures
            r == self.badges_of(account),
    {
        match map_get(&self.users, account) {
            Some(profile) => profile.badges_claimed,
            None => 0,
        }
    }

    /// The identifier the next issued token will carry.
    pub fn get_next_id(&self) -> (r: u128)
        ensures
            r == self.next_id,
    {
        self.next_id
    }

    /// Whether the account already holds its token, read from the
    /// issuance service, so the answer survives a local restart.
    pub fn get_is_already_minted(&self, wizard: &Wizard, account: u64) -> (r: bool)
        ensures
            r == (count_held(wizard.tokens@, account) >= 1),
    {
        wizard.balance_of(account) >= 1
    }

    /// The collection's image attribute, read from the issuance service.
    /// The caller asks only of a collection whose image is set.
    pub fn get_token_image(&self, wizard: &Wizard) -> (r: String)
        requires
            wizard.image is Some,
        ensures
            r@ == wizard.image->0@,
    {
        match &wizard.image {
            Some(s) => s.clone(),
            None => unreached(),
        }
    }

    /// Claims the badge for the era that has elapsed: fails while part of
    /// the era is still to be waited out, fails for an account that never
    /// called `start`, and otherwise awards one badge and restarts the
    /// era from `now`. The badge counter's width is a machine limit: a
    /// claim that would pass it is not asked for.
    pub fn claim(&mut self, caller: u64, now: u32) -> (r: Result<(), Error>)
        requires
            old(self).time_ok(caller, now),
            old(self).profile_of(caller) matches Some(p) ==> (spec_remaining(p, now) == 0
                ==> p.badges_claimed < u8::MAX),
        ensures
            old(self).remaining_of(caller, now) > 0 ==> r == Err::<(), Error>(
                Error::TooEarlyToClaim,
            ) && *final(self) == *old(self),
            old(self).remaining_of(caller, now) == 0 && old(self).profile_of(caller) is None ==> r
                == Err::<(), Error>(Error::UserNotFound) && *final(self) == *old(self),
            old(self).remaining_of(caller, now) == 0 && old(self).profile_of(caller) is Some ==> r
                is Ok && claim_ok(*old(self), *final(self), caller, now),
    {
        if self.get_remaining(caller, now) > 0 {
            return Err(Error::TooEarlyToClaim);
        }
        let profile = match self.get_profile(caller) {
            Some(p) => p,
            None => { return Err(Error::UserNotFound) },
        };
        let updated = Profile {
            claim_era: profile.claim_era,
            start_block: now,
            badges_claimed: profile.badges_claimed + 1,
        };
        map_put(&mut self.users, caller, updated);
        Ok(())
    }

    /// Issues the caller's one-time collectible token. The local gates
    /// run first — a profile must exist, the account must not hold a
    /// token yet, and the badge quota must be met — then the issuance
    /// service is called with the next identifier. Only a confirmed
    /// success is recorded: the counter moves after the service accepts,
    /// and on a refusal nothing local has been touched. The identifier
    /// counter's width is a machine limit: a mint whose gates would pass
    /// is asked for only while the counter has headroom.
    pub fn mint_wizard(&mut self, caller: u64, wizard: &mut Wizard) -> (r: Result<(), Error>)
        requires
            old(self).mint_gate(*old(wizard), caller) is Ok ==> old(self).next_id < u128::MAX,
        ensures
            old(self).mint_gate(*old(wizard), caller) matches Err(e) ==> r == Err::<(), Error>(e)
                && *final(self) == *old(self) && *final(wizard) == *old(wizard),
            old(self).mint_gate(*old(wizard), caller) is Ok ==> {
                if old(wizard).owner != old(self).account || spec_has_token(
                    old(wizard).tokens@,
                    old(self).next_id,
                ) {
                    r == Err::<(), Error>(Error::MintError) && *final(self) == *old(self)
                        && *final(wizard) == *old(wizard)
                } else {
                    r is Ok && mint_ok(
                        *old(self),
                        *final(self),
                        *old(wizard),
                        *final(wizard),
                        caller,
                    )
                }
            },
            old(wizard).wf() ==> final(wizard).wf(),
    {
        let profile = match self.get_profile(caller) {
            Some(p) => p,
            None => { return Err(Error::UserNotFound) },
        };
        if self.get_is_already_minted(wizard, caller) {
            return Err(Error::NftAlreadyClaimed);
        }
        let met = match self.policy {
            QuotaPolicy::AtLeastQuota => profile.badges_claimed >= MINT_QUOTA,
            QuotaPolicy::ExactQuota => profile.badges_claimed == MINT_QUOTA,
        };
        if !met {
            return Err(Error::NotEnoughBadges);
        }
        let id = self.next_id;
        match wizard.mint(self.account, caller, id) {
            Err(_) => Err(Error::MintError),
            Ok(()) => {
                self.next_id = id + 1;
                Ok(())
            },
        }
    }
}

/// What one successful claim does: the caller's badge count goes up by
/// exactly one, the era restarts at `now` with its length kept, and
/// nothing else moves.
pub open spec fn claim_ok(pre: Magink, post: Magink, caller: u64, now: u32) -> bool {
    &&& pre.profile_of(caller) is Some
    &&& pre.profile_of(caller)->0.badges_claimed < u8::MAX
    &&& spec_remaining(pre.profile_of(caller)->0, now) == 0
    &&& post.profile_of(caller) == (Some(
        Profile {
            claim_era: pre.profile_of(caller)->0.claim_era,
            start_block: now,
            badges_claimed: (pre.profile_of(caller)->0.badges_claimed + 1) as u8,
        },
    ))
    &&& forall|a: u64| a != caller ==> post.profile_of(a) == pre.profile_of(a)
    &&& post.account == pre.account
    &&& post.policy == pre.policy
    &&& post.next_id == pre.next_id
}

/// What one successful mint does: every local check passed, the service
/// accepted identifier `pre_m.next_id` for the caller, the token list and
/// the event log grew by exactly that issuance, the counter moved to the
/// next identifier, and nothing else moved.
pub open spec fn mint_ok(
    pre_m: Magink,
    post_m: Magink,
    pre_w: Wizard,
    post_w: Wizard,
    caller: u64,
) -> bool {
    &&& pre_m.mint_gate(pre_w, caller) == Ok::<u128, Error>(pre_m.next_id)
    &&& pre_m.next_id < u128::MAX
    &&& pre_w.owner == pre_m.account
    &&& !spec_has_token(pre_w.tokens@, pre_m.next_id)
    &&& post_m.users == pre_m.users
    &&& post_m.account == pre_m.account
    &&& post_m.policy == pre_m.policy
    &&& post_m.next_id == pre_m.next_id + 1
    &&& post_w.tokens@ == pre_w.tokens@.push((pre_m.next_id, caller))
    &&& post_w.events@ == pre_w.events@.push(
        (Transfer { from: None, to: Some(caller), id: pre_m.next_id }),
    )
    &&& post_w.owner == pre_w.owner
    &&& post_w.name == pre_w.name
    &&& post_w.description == pre_w.description
    &&& post_w.image == pre_w.image
}

} // verus!
