//! The laws of the service, stated over the same spec functions that the
//! operations' contracts use and proved from them.

use vstd::prelude::*;
use crate::engine::{claim_ok, mint_ok, Magink};
use crate::error::Error;
use crate::profile::Profile;
use crate::wizard::{count_held, spec_has_token, Wizard};

verus! {

/// An account with no profile waits for nothing and holds no badges:
/// `get_remaining` and `get_badges` both answer zero for it, at any block.
pub proof fn lemma_unregistered_account(m: Magink, account: u64, now: u32)
    requires
        m.profile_of(account) is None,
    ensures
        m.remaining_of(account, now) == 0,
        m.badges_of(account) == 0,
{
}

/// Right after `start(era)` the whole era remains to be waited out, and
/// once exactly `era` blocks have elapsed nothing remains.
pub proof fn lemma_start_era(m: Magink, caller: u64, now: u32, era: u8, later: u32)
    requires
        m.profile_of(caller) == (Some(
            Profile { claim_era: era, start_block: now, badges_claimed: 0 },
        )),
        now + era <= u32::MAX,
        later == now + era,
    ensures
        m.remaining_of(caller, now) == era,
        m.remaining_of(caller, later) == 0,
{
}

/// A successful claim raises the caller's badge count by exactly one and
/// lowers nobody's, so under claims the badge count never decreases and
/// repeated successful claims strictly increase it.
pub proof fn lemma_claim_badges_monotonic(pre: Magink, post: Magink, caller: u64, now: u32)
    requires
        claim_ok(pre, post, caller, now),
    ensures
        post.badges_of(caller) == pre.badges_of(caller) + 1,
        forall|a: u64| #[trigger] post.badges_of(a) >= pre.badges_of(a),
{
    assert forall|a: u64| #[trigger] post.badges_of(a) >= pre.badges_of(a) by {
        if a != caller {
            assert(post.profile_of(a) == pre.profile_of(a));
        }
    }
}

/// One token per account: a mint succeeds only for an account that holds
/// no token yet, leaves it holding exactly one, and a second mint for the
/// same account is refused as already claimed.
pub proof fn lemma_single_mint(
    pre_m: Magink,
    post_m: Magink,
    pre_w: Wizard,
    post_w: Wizard,
    caller: u64,
)
    requires
        mint_ok(pre_m, post_m, pre_w, post_w, caller),
    ensures
        count_held(pre_w.tokens@, caller) == 0,
        count_held(post_w.tokens@, caller) == 1,
        post_m.mint_gate(post_w, caller) == Err::<u128, Error>(Error::NftAlreadyClaimed),
{
    assert(post_w.tokens@.drop_last() =~= pre_w.tokens@);
    assert(post_m.users@ == pre_m.users@);
}

/// Every successful mint issues an identifier distinct from all the
/// identifiers issued before it, and the issued identifiers stay
/// pairwise distinct.
pub proof fn lemma_fresh_identifier(
    pre_m: Magink,
    post_m: Magink,
    pre_w: Wizard,
    post_w: Wizard,
    caller: u64,
)
    requires
        mint_ok(pre_m, post_m, pre_w, post_w, caller),
        pre_w.wf(),
    ensures
        !spec_has_token(pre_w.tokens@, pre_m.next_id),
        post_w.wf(),
{
    assert forall|i: int, j: int|
        0 <= i < j < post_w.tokens@.len() implies (#[trigger] post_w.tokens@[i]).0 != (
    #[trigger] post_w.tokens@[j]).0 by {
        if j == post_w.tokens@.len() - 1 {
            assert(post_w.tokens@[i] == pre_w.tokens@[i]);
            assert(!spec_has_token(pre_w.tokens@, pre_m.next_id));
        } else {
            assert(post_w.tokens@[i] == pre_w.tokens@[i]);
            assert(post_w.tokens@[j] == pre_w.tokens@[j]);
        }
    }
}

} // verus!
