//! The in-memory cache of every member's profiles, and the data that each
//! command invocation can reach.
use std::collections::HashMap;
use vstd::prelude::*;
use crate::profile::ProfileInfo;

verus! {

/// The profiles of `profiles` that belong to `owner`, in their order.
pub open spec fn owned_by(profiles: Seq<ProfileInfo>, owner: u64) -> Seq<ProfileInfo>
    decreases profiles.len(),
{
    if profiles.len() == 0 {
        Seq::empty()
    } else {
        let rest = owned_by(profiles.drop_last(), owner);
        if profiles.last().owner == owner {
            rest.push(profiles.last())
        } else {
            rest
        }
    }
}

/// The profiles of each member, keyed by the member's user id.
#[derive(Debug)]
pub struct ProfileCache {
    pub users: HashMap<u64, Vec<ProfileInfo>>,
}

/// `users` files the profiles of `profiles` by owner: a member is present
/// exactly when they own a profile, with their profiles in order.
pub open spec fn groups_by_owner(users: Map<u64, Vec<ProfileInfo>>, profiles: Seq<ProfileInfo>) -> bool {
    forall|owner: u64|
        #![trigger users.contains_key(owner)]
        #![trigger owned_by(profiles, owner)]
        (users.contains_key(owner) <==> owned_by(profiles, owner).len() > 0) && (
        users.contains_key(owner) ==> users[owner]@ == owned_by(profiles, owner))
}

impl ProfileCache {
    /// The cache of `profiles`, grouped by owner.
    pub fn from_profiles(profiles: Vec<ProfileInfo>) -> (cache: ProfileCache)
        ensures
            groups_by_owner(cache.users@, profiles@),
    {
        let ghost all = profiles@;
        let mut users: HashMap<u64, Vec<ProfileInfo>> = HashMap::new();
        proof {
            assert forall|owner: u64| owned_by(all.take(0), owner).len() == 0 by {
                assert(all.take(0).len() == 0);
            }
        }
        for profile in it: profiles
            invariant
                it.seq() == all,
                groups_by_owner(users@, all.take(it.index() as int)),
        {
            let ghost done = all.take(it.index() as int);
            let ghost now = all.take(it.index() as int + 1);
            let ghost prev = users@;
            proof {
                assert(now.drop_last() =~= done);
                assert(now.last() == profile);
            }
            let owner = profile.owner;
            if users.contains_key(&owner) {
                let mut list = users.remove(&owner).unwrap();
                list.push(profile);
                users.insert(owner, list);
            } else {
                let mut list: Vec<ProfileInfo> = Vec::new();
                list.push(profile);
                users.insert(owner, list);
                proof {
                    assert(owned_by(done, owner).len() == 0);
                    assert(owned_by(done, owner) =~= Seq::<ProfileInfo>::empty());
                }
            }
            proof {
                assert forall|o: u64|
                    #![trigger users@.contains_key(o)]
                    #![trigger owned_by(now, o)]
                    (users@.contains_key(o) <==> owned_by(now, o).len() > 0) && (users@.contains_key(o)
                        ==> users@[o]@ == owned_by(now, o)) by {
                    if o != owner {
                        assert(prev.contains_key(o) == users@.contains_key(o));
                        assert(owned_by(now, o) == owned_by(done, o));
                    }
                }
            }
        }
        assert(all.take(all.len() as int) =~= all);
        ProfileCache { users }
    }

    /// The profiles of the member `user`, if they have any.
    pub fn profiles_of(&self, user: u64) -> (r: Option<&Vec<ProfileInfo>>)
        ensures
            match r {
                Some(list) => self.users@.contains_key(user) && self.users@[user] == *list,
                None => !self.users@.contains_key(user),
            },
    {
        self.users.get(&user)
    }
}

/// What every command invocation can reach.
#[derive(Debug)]
pub struct SessionData {
    pub cache: ProfileCache,
}

} // verus!

verus! {

/// A member's list holds exactly the profiles that they own, and only
/// those.
pub proof fn law_owned_by_exactly(profiles: Seq<ProfileInfo>, owner: u64, p: ProfileInfo)
    ensures
        owned_by(profiles, owner).contains(p) <==> (profiles.contains(p) && p.owner == owner),
    decreases profiles.len(),
{
    if profiles.len() > 0 {
        let rest = profiles.drop_last();
        law_owned_by_exactly(rest, owner, p);
        assert(profiles =~= rest.push(profiles.last()));
        if profiles.contains(p) && p != profiles.last() {
            let i = choose|i: int| 0 <= i < profiles.len() && profiles[i] == p;
            assert(rest[i] == p);
        }
        if rest.contains(p) {
            let i = choose|i: int| 0 <= i < rest.len() && rest[i] == p;
            assert(profiles[i] == p);
        }
        if profiles.last().owner == owner {
            let r = owned_by(rest, owner);
            assert(r.push(profiles.last())[r.len() as int] == profiles.last());
            if r.push(profiles.last()).contains(p) && p != profiles.last() {
                let i = choose|i: int| 0 <= i < r.len() + 1 && r.push(profiles.last())[i] == p;
                assert(r[i] == p);
            }
            if r.contains(p) {
                let i = choose|i: int| 0 <= i < r.len() && r[i] == p;
                assert(r.push(profiles.last())[i] == p);
            }
        }
    }
}

/// Every profile is filed under its owner.
pub proof fn law_every_profile_filed(users: Map<u64, Vec<ProfileInfo>>, profiles: Seq<ProfileInfo>, p: ProfileInfo)
    requires
        groups_by_owner(users, profiles),
        profiles.contains(p),
    ensures
        users.contains_key(p.owner),
        users[p.owner]@.contains(p),
{
    law_owned_by_exactly(profiles, p.owner, p);
    assert(owned_by(profiles, p.owner).len() > 0);
}

} // verus!
