//! Adding a user's groups to a list of numeric group ids that the host keeps.
//!
//! The list has a fill position, behind which it may be overwritten, and it
//! grows where it must, but never beyond a limit that the host sets: what
//! does not fit below the limit is left out.

use vstd::prelude::*;
use crate::error::outcome;
use crate::error::GraphInfoResult;
use crate::nss::lookup_failure;
use crate::nss::nss_lookup_failure;
use crate::nss::nss_success;
use crate::nss::success;
use crate::nss::NssReturn;
use crate::listed_id;
use crate::AadConfig;
use crate::GroupInfo;
use crate::GroupRecord;

verus! {

/// The numeric ids to add for a user's groups, in the order of the groups:
/// the id of every group that the allow-list names, but for `skip`.
pub open spec fn qualifying_ids(
    allowed: Seq<(Seq<char>, u32)>,
    groups: Seq<GroupRecord>,
    skip: u32,
) -> Seq<u32>
    decreases groups.len(),
{
    if groups.len() == 0 {
        Seq::empty()
    } else {
        let before = qualifying_ids(allowed, groups.drop_last(), skip);
        match listed_id(allowed, groups.last().groupname) {
            Some(gid) => if gid != skip {
                before.push(gid)
            } else {
                before
            },
            None => before,
        }
    }
}

/// How many of `wanted` ids are written from position `start` on, when the
/// list may not grow beyond `limit` entries.
pub open spec fn written(start: nat, limit: nat, wanted: nat) -> nat {
    if limit <= start {
        0
    } else if wanted <= limit - start {
        wanted
    } else {
        (limit - start) as nat
    }
}

/// The list `ids` with `new` written from position `start` on: what stood
/// there is overwritten, and the list grows where `new` reaches beyond its
/// end.
pub open spec fn overwritten(ids: Seq<u32>, start: int, new: Seq<u32>) -> Seq<u32> {
    if start + new.len() >= ids.len() {
        ids.take(start) + new
    } else {
        ids.take(start) + new + ids.skip(start + new.len())
    }
}

/// Picks the ids to add for the groups of a user.
pub fn qualifying_group_ids(config: &AadConfig, groups: &Vec<GroupInfo>, skipgroup: u32) -> (r: Vec<
    u32,
>)
    ensures
        r@ == qualifying_ids(config.group_ids.deep_view(), groups.deep_view(), skipgroup),
{
    let ghost all = groups.deep_view();
    let mut ids: Vec<u32> = Vec::new();
    let mut i: usize = 0;
    while i < groups.len()
        invariant
            i <= groups.len(),
            all == groups.deep_view(),
            ids@ == qualifying_ids(config.group_ids.deep_view(), all.take(i as int), skipgroup),
        decreases groups.len() - i,
    {
        assert(all.take(i + 1).drop_last() =~= all.take(i as int));
        match config.group_id(groups[i].groupname().as_str()) {
            Some(gid) => {
                if gid != skipgroup {
                    ids.push(gid);
                }
            },
            None => {},
        }
        i = i + 1;
    }
    assert(all.take(i as int) =~= all);
    ids
}

/// Writes `new_ids` into `ids` from position `start` on, as far as `limit`
/// allows, and returns the position behind the last id written.
pub fn append_group_ids(ids: &mut Vec<u32>, start: usize, limit: usize, new_ids: &Vec<u32>) -> (next:
    usize)
    requires
        start <= old(ids)@.len(),
    ensures
        next == start + written(start as nat, limit as nat, new_ids@.len()),
        final(ids)@ == overwritten(old(ids)@, start as int, new_ids@.take(next - start)),
{
    let ghost before = ids@;
    let room: usize = if limit > start {
        limit - start
    } else {
        0
    };
    let count: usize = if new_ids.len() <= room {
        new_ids.len()
    } else {
        room
    };
    let mut k: usize = 0;
    while k < count
        invariant
            k <= count,
            count <= new_ids.len(),
            start + count <= usize::MAX,
            start <= before.len(),
            ids@ == overwritten(before, start as int, new_ids@.take(k as int)),
        decreases count - k,
    {
        if start + k < ids.len() {
            ids[start + k] = new_ids[k];
        } else {
            ids.push(new_ids[k]);
        }
        k = k + 1;
    }
    start + count
}

/// Adds the groups of a user to the host's list: `groups` is what the
/// directory said of the user's groups.
///
/// Where the directory gave no answer the list is left as it is. A user
/// without groups to add is no failure.
pub fn initgroups_dyn(
    config: &AadConfig,
    groups: GraphInfoResult<Vec<GroupInfo>>,
    skipgroup: u32,
    ids: &mut Vec<u32>,
    start: usize,
    limit: usize,
) -> (r: (NssReturn, usize))
    requires
        start <= old(ids)@.len(),
    ensures
        match outcome(groups) {
            Err(e) => r == (lookup_failure(e), start) && final(ids)@ == old(ids)@,
            Ok(found) => {
                let new = qualifying_ids(config.group_ids.deep_view(), found, skipgroup);
                let count = written(start as nat, limit as nat, new.len());
                &&& r == (success(), (start + count) as usize)
                &&& final(ids)@ == overwritten(old(ids)@, start as int, new.take(count as int))
            },
        },
{
    match groups {
        Ok(found) => {
            let user_groups = qualifying_group_ids(config, &found, skipgroup);
            let next = append_group_ids(ids, start, limit, &user_groups);
            (nss_success(), next)
        },
        Err(e) => {
            assert(ids@ =~= old(ids)@);
            (nss_lookup_failure(&e), start)
        },
    }
}

} // verus!
