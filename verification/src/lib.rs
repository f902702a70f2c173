//! Name-service lookups of users and groups against a cloud directory.
//!
//! The library holds the rules of the lookup: how directory answers become
//! records, how records are packed into a caller's buffer, and which status
//! each outcome reports. Sending requests and touching foreign memory is left
//! to the caller.

use vstd::prelude::*;
use crate::error::GraphError;
use crate::error::GraphInfoResult;
use crate::error::GraphInfoRetrievalError;
use crate::error::outcome;
use crate::text::parse_relative_id;
use crate::text::relative_id;
use crate::text::same_text;

pub mod azure;
pub mod buffer;
pub mod error;
pub mod initgroups;
pub mod json;
pub mod nss;
pub mod text;

verus! {

/// Numeric ids below this value belong to built-in principals and are never handed out.
pub const MIN_USABLE_ID: u32 = 1000;

/// Mathematical model of a [`UserInfo`].
pub struct UserRecord {
    pub username: Seq<char>,
    pub fullname: Seq<char>,
    pub userid: u32,
}

/// What the fields of a directory entry make of a user: all three must be
/// there, and the security identifier must carry a numeric id that is not
/// reserved.
pub open spec fn directory_user(
    principal_name: Option<Seq<char>>,
    display_name: Option<Seq<char>>,
    sid: Option<Seq<char>>,
) -> Result<UserRecord, GraphError> {
    if principal_name is None || display_name is None || sid is None {
        Err(GraphError::BadJSONResponse)
    } else {
        match relative_id(sid->0) {
            Some(id) => if id >= MIN_USABLE_ID {
                Ok(UserRecord { username: principal_name->0, fullname: display_name->0, userid: id })
            } else {
                Err(GraphError::UnusableImmutableID)
            },
            None => Err(GraphError::UnusableImmutableID),
        }
    }
}

/// What the fields of a directory entry make of a group, by the rules of
/// [`directory_user`].
pub open spec fn directory_group(
    display_name: Option<Seq<char>>,
    object_id: Option<Seq<char>>,
    sid: Option<Seq<char>>,
) -> Result<GroupRecord, GraphError> {
    if display_name is None || object_id is None || sid is None {
        Err(GraphError::BadJSONResponse)
    } else {
        match relative_id(sid->0) {
            Some(id) => if id >= MIN_USABLE_ID {
                Ok(GroupRecord { groupname: display_name->0, object_id: object_id->0, group_id: id })
            } else {
                Err(GraphError::UnusableImmutableID)
            },
            None => Err(GraphError::UnusableImmutableID),
        }
    }
}

/// An entry whose security identifier carries a reserved numeric id yields
/// no record, whatever its other fields hold; where they are all there, the
/// entry is refused as unusable.
pub proof fn lemma_reserved_id_is_unusable(
    first: Option<Seq<char>>,
    second: Option<Seq<char>>,
    sid: Seq<char>,
)
    requires
        relative_id(sid) matches Some(id) && id < MIN_USABLE_ID,
    ensures
        directory_user(first, second, Some(sid)) is Err,
        directory_group(first, second, Some(sid)) is Err,
        first is Some && second is Some ==> directory_user(first, second, Some(sid)) == Err::<
            UserRecord,
            _,
        >(GraphError::UnusableImmutableID),
        first is Some && second is Some ==> directory_group(first, second, Some(sid)) == Err::<
            GroupRecord,
            _,
        >(GraphError::UnusableImmutableID),
{
}

/// A user of the directory, with a numeric id that the host may use.
#[derive(Debug, PartialEq, Eq)]
pub struct UserInfo {
    username: String,
    fullname: String,
    userid: u32,
}

impl View for UserInfo {
    type V = UserRecord;

    closed spec fn view(&self) -> UserRecord {
        UserRecord { username: self.username@, fullname: self.fullname@, userid: self.userid }
    }
}

impl DeepView for UserInfo {
    type V = UserRecord;

    open spec fn deep_view(&self) -> UserRecord {
        self@
    }
}

impl Clone for UserInfo {
    fn clone(&self) -> (r: UserInfo)
        ensures
            r@ == self@,
    {
        proof {
            use_type_invariant(self);
        }
        UserInfo {
            username: self.username.clone(),
            fullname: self.fullname.clone(),
            userid: self.userid,
        }
    }
}

impl UserInfo {
    #[verifier::type_invariant]
    spec fn usable(self) -> bool {
        self.userid >= MIN_USABLE_ID
    }

    /// A record for `userid`, unless that id is reserved.
    pub fn new(username: String, fullname: String, userid: u32) -> (r: GraphInfoResult<UserInfo>)
        ensures
            outcome(r) == if userid < MIN_USABLE_ID {
                Err::<UserRecord, _>(GraphError::UnusableImmutableID)
            } else {
                Ok(UserRecord { username: username@, fullname: fullname@, userid })
            },
    {
        if userid < MIN_USABLE_ID {
            Err(GraphInfoRetrievalError::UnusableImmutableID)
        } else {
            Ok(UserInfo { username, fullname, userid })
        }
    }

    /// Makes a user of the fields of a directory entry.
    pub fn from_directory(
        principal_name: Option<&str>,
        display_name: Option<&str>,
        sid: Option<&str>,
    ) -> (r: GraphInfoResult<UserInfo>)
        ensures
            outcome(r) == directory_user(
                principal_name.deep_view(),
                display_name.deep_view(),
                sid.deep_view(),
            ),
    {
        match (principal_name, display_name, sid) {
            (Some(name), Some(display), Some(sid)) => match parse_relative_id(sid) {
                Some(id) => UserInfo::new(name.to_owned(), display.to_owned(), id),
                None => Err(GraphInfoRetrievalError::UnusableImmutableID),
            },
            _ => Err(GraphInfoRetrievalError::BadJSONResponse),
        }
    }

    pub fn username(&self) -> (r: &String)
        ensures
            r@ == self@.username,
    {
        &self.username
    }

    pub fn fullname(&self) -> (r: &String)
        ensures
            r@ == self@.fullname,
    {
        &self.fullname
    }

    pub fn userid(&self) -> (r: u32)
        ensures
            r == self@.userid,
            r >= MIN_USABLE_ID,
    {
        proof {
            use_type_invariant(self);
        }
        self.userid
    }
}

/// Mathematical model of a [`GroupInfo`].
pub struct GroupRecord {
    pub groupname: Seq<char>,
    pub object_id: Seq<char>,
    pub group_id: u32,
}

/// A group of the directory, with a numeric id that the host may use. The
/// object id names the group towards the directory only.
#[derive(Debug, PartialEq, Eq)]
pub struct GroupInfo {
    groupname: String,
    object_id: String,
    group_id: u32,
}

impl View for GroupInfo {
    type V = GroupRecord;

    closed spec fn view(&self) -> GroupRecord {
        GroupRecord {
            groupname: self.groupname@,
            object_id: self.object_id@,
            group_id: self.group_id,
        }
    }
}

impl DeepView for GroupInfo {
    type V = GroupRecord;

    open spec fn deep_view(&self) -> GroupRecord {
        self@
    }
}

impl Clone for GroupInfo {
    fn clone(&self) -> (r: GroupInfo)
        ensures
            r@ == self@,
    {
        proof {
            use_type_invariant(self);
        }
        GroupInfo {
            groupname: self.groupname.clone(),
            object_id: self.object_id.clone(),
            group_id: self.group_id,
        }
    }
}

impl GroupInfo {
    #[verifier::type_invariant]
    spec fn usable(self) -> bool {
        self.group_id >= MIN_USABLE_ID
    }

    /// A record for `group_id`, unless that id is reserved.
    pub fn new(groupname: String, object_id: String, group_id: u32) -> (r: GraphInfoResult<
        GroupInfo,
    >)
        ensures
            outcome(r) == if group_id < MIN_USABLE_ID {
                Err::<GroupRecord, _>(GraphError::UnusableImmutableID)
            } else {
                Ok(GroupRecord { groupname: groupname@, object_id: object_id@, group_id })
            },
    {
        if group_id < MIN_USABLE_ID {
            Err(GraphInfoRetrievalError::UnusableImmutableID)
        } else {
            Ok(GroupInfo { groupname, object_id, group_id })
        }
    }

    /// Makes a group of the fields of a directory entry.
    pub fn from_directory(
        display_name: Option<&str>,
        object_id: Option<&str>,
        sid: Option<&str>,
    ) -> (r: GraphInfoResult<GroupInfo>)
        ensures
            outcome(r) == directory_group(
                display_name.deep_view(),
                object_id.deep_view(),
                sid.deep_view(),
            ),
    {
        match (display_name, object_id, sid) {
            (Some(name), Some(object_id), Some(sid)) => match parse_relative_id(sid) {
                Some(id) => GroupInfo::new(name.to_owned(), object_id.to_owned(), id),
                None => Err(GraphInfoRetrievalError::UnusableImmutableID),
            },
            _ => Err(GraphInfoRetrievalError::BadJSONResponse),
        }
    }

    pub fn groupname(&self) -> (r: &String)
        ensures
            r@ == self@.groupname,
    {
        &self.groupname
    }

    pub fn object_id(&self) -> (r: &String)
        ensures
            r@ == self@.object_id,
    {
        &self.object_id
    }

    pub fn group_id(&self) -> (r: u32)
        ensures
            r == self@.group_id,
            r >= MIN_USABLE_ID,
    {
        proof {
            use_type_invariant(self);
        }
        self.group_id
    }
}

/// The numeric id that a list of name and id pairs gives to `name`. Where a
/// name is listed twice, the later pair counts.
pub open spec fn listed_id(entries: Seq<(Seq<char>, u32)>, name: Seq<char>) -> Option<u32>
    decreases entries.len(),
{
    if entries.len() == 0 {
        None
    } else if entries.last().0 == name {
        Some(entries.last().1)
    } else {
        listed_id(entries.drop_last(), name)
    }
}

/// Credentials for the directory and the rules that turn its records into
/// local accounts.
#[derive(Debug, Clone, PartialEq, Eq)]
pub struct AadConfig {
    pub client_id: String,
    pub client_secret: String,
    /// The security identifier of the domain; a principal's identifier is
    /// this prefix, a hyphen and the principal's numeric id.
    pub domain_sid: String,
    /// The primary group given to every user.
    pub default_user_group_id: u32,
    pub tenant: String,
    /// The groups that the host may see, each with its numeric id. A group
    /// that is not listed does not exist for the host.
    pub group_ids: Vec<(String, u32)>,
}

impl AadConfig {
    /// The numeric id that the allow-list gives to the group `name`.
    pub open spec fn listed_group(&self, name: Seq<char>) -> Option<u32> {
        listed_id(self.group_ids.deep_view(), name)
    }

    /// Looks `name` up in the allow-list.
    pub fn group_id(&self, name: &str) -> (r: Option<u32>)
        ensures
            r == self.listed_group(name@),
    {
        let ghost entries = self.group_ids.deep_view();
        let mut k: usize = self.group_ids.len();
        assert(entries.take(k as int) =~= entries);
        while k > 0
            invariant
                k <= self.group_ids.len(),
                entries == self.group_ids.deep_view(),
                listed_id(entries, name@) == listed_id(entries.take(k as int), name@),
            decreases k,
        {
            k = k - 1;
            assert(entries.take(k + 1).drop_last() =~= entries.take(k as int));
            if same_text(self.group_ids[k].0.as_str(), name) {
                return Some(self.group_ids[k].1);
            }
        }
        None
    }
}

} // verus!
