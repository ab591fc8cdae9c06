//! The table of push subscriptions: one row per user and delivery endpoint.

use vstd::prelude::*;
use crate::db::scan::{first_index, lemma_first_index, lemma_first_index_is, lemma_first_index_none};
use crate::time::Timestamp;

verus! {

/// A device's push endpoint, with the two keys that the push protocol asks for.
#[derive(Debug, PartialEq, Eq)]
pub struct NotifSub {
    pub id: String,
    pub user_id: String,
    pub endpoint: String,
    pub p256dh: String,
    pub auth: String,
    pub created_at: Timestamp,
}

impl Clone for NotifSub {
    fn clone(&self) -> (sub: Self)
        ensures
            sub == *self,
    {
        NotifSub {
            id: self.id.clone(),
            user_id: self.user_id.clone(),
            endpoint: self.endpoint.clone(),
            p256dh: self.p256dh.clone(),
            auth: self.auth.clone(),
            created_at: self.created_at,
        }
    }
}

/// The condition of being the subscription of `user_id` for `endpoint`.
pub open spec fn registered(user_id: Seq<char>, endpoint: Seq<char>) -> spec_fn(NotifSub) -> bool {
    |sub: NotifSub| sub.user_id@ == user_id && sub.endpoint@ == endpoint
}

/// The condition of being another subscription than that of `user_id` for
/// `endpoint`.
pub open spec fn other_than(user_id: Seq<char>, endpoint: Seq<char>) -> spec_fn(NotifSub) -> bool {
    |sub: NotifSub| !(sub.user_id@ == user_id && sub.endpoint@ == endpoint)
}

/// Where `user_id` is registered for `endpoint`.
pub open spec fn sub_position(subs: Seq<NotifSub>, user_id: Seq<char>, endpoint: Seq<char>) -> Option<int> {
    first_index(subs, registered(user_id, endpoint))
}

/// No user is registered twice for one endpoint.
pub open spec fn subs_unique(subs: Seq<NotifSub>) -> bool {
    forall|i: int, j: int|
        0 <= i < j < subs.len() ==> !(subs[i].user_id@ == subs[j].user_id@ && subs[i].endpoint@
            == subs[j].endpoint@)
}

/// The table after `sub` was registered: unchanged where its user already
/// has the endpoint, else with `sub` appended.
pub open spec fn registered_with(subs: Seq<NotifSub>, sub: NotifSub) -> Seq<NotifSub> {
    if sub_position(subs, sub.user_id@, sub.endpoint@) is Some {
        subs
    } else {
        subs.push(sub)
    }
}

/// The row that stands for `sub` after it was registered: the one that was
/// there, or `sub` itself.
pub open spec fn registration(subs: Seq<NotifSub>, sub: NotifSub) -> NotifSub {
    match sub_position(subs, sub.user_id@, sub.endpoint@) {
        Some(i) => subs[i],
        None => sub,
    }
}

/// The table without the subscription of `user_id` for `endpoint`.
pub open spec fn unregistered(subs: Seq<NotifSub>, user_id: Seq<char>, endpoint: Seq<char>) -> Seq<NotifSub> {
    subs.filter(other_than(user_id, endpoint))
}

/// Registering leaves every user with one row per endpoint at most.
pub proof fn lemma_registered_with_keeps_unique(subs: Seq<NotifSub>, sub: NotifSub)
    requires
        subs_unique(subs),
    ensures
        subs_unique(registered_with(subs, sub)),
{
    lemma_first_index(subs, registered(sub.user_id@, sub.endpoint@));
    if sub_position(subs, sub.user_id@, sub.endpoint@) is None {
        assert forall|i: int, j: int| 0 <= i < j < subs.push(sub).len() implies !(subs.push(sub)[i].user_id@
            == subs.push(sub)[j].user_id@ && subs.push(sub)[i].endpoint@ == subs.push(sub)[j].endpoint@) by {
            if j == subs.len() {
                assert(!registered(sub.user_id@, sub.endpoint@)(subs[i]));
            }
        }
    }
}

/// Removing a subscription leaves every user with one row per endpoint at
/// most, and with none for the endpoint that was removed.
pub proof fn lemma_unregistered_keeps_unique(subs: Seq<NotifSub>, user_id: Seq<char>, endpoint: Seq<char>)
    requires
        subs_unique(subs),
    ensures
        subs_unique(unregistered(subs, user_id, endpoint)),
        sub_position(unregistered(subs, user_id, endpoint), user_id, endpoint) is None,
    decreases subs.len(),
{
    reveal(Seq::filter);
    let rest = unregistered(subs, user_id, endpoint);
    if subs.len() > 0 {
        let front = subs.drop_last();
        assert(forall|i: int| 0 <= i < front.len() ==> front[i] == subs[i]);
        lemma_unregistered_keeps_unique(front, user_id, endpoint);
        let kept = unregistered(front, user_id, endpoint);
        if other_than(user_id, endpoint)(subs.last()) {
            assert(rest == kept.push(subs.last()));
            assert forall|i: int, j: int| 0 <= i < j < rest.len() implies !(rest[i].user_id@ == rest[j].user_id@
                && rest[i].endpoint@ == rest[j].endpoint@) by {
                if j == kept.len() {
                    assert(kept.contains(kept[i]));
                    front.lemma_filter_contains_rev(other_than(user_id, endpoint), kept[i]);
                    let at = choose|at: int| 0 <= at < front.len() && front[at] == kept[i];
                    assert(subs[at] == kept[i]);
                }
            }
        } else {
            assert(rest == kept);
        }
    }
    assert forall|i: int| 0 <= i < rest.len() implies !registered(user_id, endpoint)(#[trigger] rest[i]) by {
        subs.lemma_filter_pred(other_than(user_id, endpoint), i);
    }
    lemma_first_index_none(rest, registered(user_id, endpoint));
}

/// Looks for the subscription of `user_id` for `endpoint`.
fn find_sub(subs: &Vec<NotifSub>, user_id: &str, endpoint: &str) -> (at: Option<usize>)
    ensures
        match at {
            Some(i) => sub_position(subs@, user_id@, endpoint@) == Some(i as int) && i < subs.len(),
            None => sub_position(subs@, user_id@, endpoint@) is None,
        },
{
    let mut i: usize = 0;
    while i < subs.len()
        invariant
            i <= subs.len(),
            forall|k: int| 0 <= k < i ==> !registered(user_id@, endpoint@)(subs@[k]),
        decreases subs.len() - i,
    {
        if *subs[i].user_id.as_str() == *user_id && *subs[i].endpoint.as_str() == *endpoint {
            proof {
                lemma_first_index_is(subs@, registered(user_id@, endpoint@), i as int);
            }
            return Some(i);
        }
        i += 1;
    }
    proof {
        lemma_first_index_none(subs@, registered(user_id@, endpoint@));
    }
    None
}

/// Registers `sub` and hands back the stored row. Registering an endpoint that
/// the user already has changes nothing and hands back the row that was there.
pub fn upsert(subs: &mut Vec<NotifSub>, sub: NotifSub) -> (stored: NotifSub)
    ensures
        final(subs)@ == registered_with(old(subs)@, sub),
        stored == registration(old(subs)@, sub),
{
    match find_sub(subs, sub.user_id.as_str(), sub.endpoint.as_str()) {
        Some(i) => subs[i].clone(),
        None => {
            let stored = sub.clone();
            subs.push(sub);
            stored
        },
    }
}

/// Removes the subscription of `user_id` for `endpoint`; says whether there
/// was one.
pub fn delete(subs: &mut Vec<NotifSub>, user_id: &str, endpoint: &str) -> (deleted: bool)
    ensures
        final(subs)@ == unregistered(old(subs)@, user_id@, endpoint@),
        deleted == (sub_position(old(subs)@, user_id@, endpoint@) is Some),
{
    let ghost all = subs@;
    let mut rest: Vec<NotifSub> = Vec::new();
    let mut deleted = false;
    let mut i: usize = 0;
    while i < subs.len()
        invariant
            i <= subs.len(),
            subs@ == all,
            rest@ == all.take(i as int).filter(other_than(user_id@, endpoint@)),
            deleted == exists|k: int| 0 <= k < i && registered(user_id@, endpoint@)(all[k]),
        decreases subs.len() - i,
    {
        proof {
            assert(all.take(i as int + 1) =~= all.take(i as int).push(all[i as int]));
            all.take(i as int).lemma_filter_push(all[i as int], other_than(user_id@, endpoint@));
        }
        let sub = &subs[i];
        if *sub.user_id.as_str() == *user_id && *sub.endpoint.as_str() == *endpoint {
            deleted = true;
        } else {
            rest.push(sub.clone());
        }
        i += 1;
    }
    proof {
        assert(all.take(subs.len() as int) =~= all);
        lemma_first_index(all, registered(user_id@, endpoint@));
    }
    *subs = rest;
    deleted
}

} // verus!
