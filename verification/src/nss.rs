//! What a lookup reports to the host: a status, an error number, and the
//! record where there is one.

use vstd::prelude::*;
use vstd::string::StringExecFns;
use vstd::utf8::encode_utf8;
use crate::azure::group_by_sid_url;
use crate::azure::user_by_sid_url;
use crate::buffer::any_nul;
use crate::buffer::fill_group_buf;
use crate::buffer::fill_passwd_buf;
use crate::buffer::group_fields;
use crate::buffer::group_fill;
use crate::buffer::has_nul;
use crate::buffer::lemma_group_fields_nul;
use crate::buffer::lemma_passwd_fields_nul;
use crate::buffer::member_names;
use crate::buffer::packed;
use crate::buffer::passwd_fields;
use crate::buffer::passwd_fill;
use crate::buffer::GroupEntry;
use crate::buffer::GroupLayout;
use crate::buffer::PasswdEntry;
use crate::error::outcome;
use crate::error::BufferFillError;
use crate::error::GraphError;
use crate::error::GraphInfoResult;
use crate::error::GraphInfoRetrievalError;
use crate::text::decimal;
use crate::text::lemma_relative_id_of_suffix;
use crate::text::relative_id;
use crate::text::to_decimal;
use crate::AadConfig;
use crate::GroupInfo;
use crate::GroupRecord;
use crate::UserInfo;
use crate::UserRecord;
use crate::MIN_USABLE_ID;

verus! {

/// The status of an answer that says that nothing is at the address asked for.
pub const HTTP_NOT_FOUND: u16 = 404;

/// The status that a lookup returns to the host.
#[derive(Debug, Clone, Copy, PartialEq, Eq, Structural)]
pub enum NssStatus {
    /// The lookup may succeed when it is made again.
    TryAgain,
    /// The service cannot work as it is set up.
    Unavailable,
    /// There is no such entry.
    NotFound,
    /// The entry was found and stored.
    Success,
}

impl NssStatus {
    /// The number that the host knows the status by.
    pub open spec fn number(self) -> int {
        match self {
            NssStatus::TryAgain => -2,
            NssStatus::Unavailable => -1,
            NssStatus::NotFound => 0,
            NssStatus::Success => 1,
        }
    }

    /// The number that the host knows the status by.
    pub fn code(self) -> (r: i32)
        ensures
            r == self.number(),
    {
        match self {
            NssStatus::TryAgain => -2,
            NssStatus::Unavailable => -1,
            NssStatus::NotFound => 0,
            NssStatus::Success => 1,
        }
    }
}

/// The error numbers that a lookup sets, by their names on the host.
#[derive(Debug, Clone, Copy, PartialEq, Eq, Structural)]
pub enum Errno {
    /// No such file or entry.
    Enoent,
    /// Resource temporarily unavailable.
    Eagain,
    /// Result too large for the buffer supplied.
    Erange,
}

/// What a lookup hands back besides the record: its status, and the error
/// number where it sets one.
#[derive(Debug, Clone, Copy, PartialEq, Eq, Structural)]
pub struct NssReturn {
    pub status: NssStatus,
    pub errno: Option<Errno>,
}

/// The service failed, or ran out of resources for a while.
pub open spec fn out_of_service() -> NssReturn {
    NssReturn { status: NssStatus::TryAgain, errno: Some(Errno::Eagain) }
}

/// The buffer is too small; the same lookup succeeds with a larger one.
pub open spec fn insufficient_buffer() -> NssReturn {
    NssReturn { status: NssStatus::TryAgain, errno: Some(Errno::Erange) }
}

/// The configuration cannot be read.
pub open spec fn input_file_err() -> NssReturn {
    NssReturn { status: NssStatus::Unavailable, errno: Some(Errno::Enoent) }
}

/// There is no entry to be had for this query.
pub open spec fn entry_not_available() -> NssReturn {
    NssReturn { status: NssStatus::NotFound, errno: Some(Errno::Enoent) }
}

/// There are no entries, and that is no error.
pub open spec fn no_entries_available() -> NssReturn {
    NssReturn { status: NssStatus::NotFound, errno: None }
}

/// The entry was found and stored.
pub open spec fn success() -> NssReturn {
    NssReturn { status: NssStatus::Success, errno: None }
}

/// The service failed, or ran out of resources for a while.
pub fn nss_out_of_service() -> (r: NssReturn)
    ensures
        r == out_of_service(),
{
    NssReturn { status: NssStatus::TryAgain, errno: Some(Errno::Eagain) }
}

/// The buffer is too small; the lookup should be made again with a larger one.
pub fn nss_insufficient_buffer() -> (r: NssReturn)
    ensures
        r == insufficient_buffer(),
{
    NssReturn { status: NssStatus::TryAgain, errno: Some(Errno::Erange) }
}

/// A file that the lookup needs cannot be read.
pub fn nss_input_file_err() -> (r: NssReturn)
    ensures
        r == input_file_err(),
{
    NssReturn { status: NssStatus::Unavailable, errno: Some(Errno::Enoent) }
}

/// The entry asked for is not available.
pub fn nss_entry_not_available() -> (r: NssReturn)
    ensures
        r == entry_not_available(),
{
    NssReturn { status: NssStatus::NotFound, errno: Some(Errno::Enoent) }
}

/// There are no entries. This is for a service that is not in use and may
/// be later; no error number is set.
pub fn nss_no_entries_available() -> (r: NssReturn)
    ensures
        r == no_entries_available(),
{
    NssReturn { status: NssStatus::NotFound, errno: None }
}

/// The entry was found and stored.
pub fn nss_success() -> (r: NssReturn)
    ensures
        r == success(),
{
    NssReturn { status: NssStatus::Success, errno: None }
}

/// What a lookup reports when the directory gave no record.
///
/// That nothing, or more than one thing, matched the query, and that the
/// record found cannot be used, are facts about the query: there is no such
/// entry. Every other failure lies with the service and may pass.
pub open spec fn lookup_failure(e: GraphError) -> NssReturn {
    match e {
        GraphError::BadHTTPResponse { status, .. } => if status == HTTP_NOT_FOUND {
            entry_not_available()
        } else {
            out_of_service()
        },
        GraphError::TooManyResults => entry_not_available(),
        GraphError::NotFound => entry_not_available(),
        GraphError::UnusableImmutableID => entry_not_available(),
        GraphError::NoAccessToken { .. } => out_of_service(),
        GraphError::BadJSONResponse => out_of_service(),
        GraphError::HTTPError(_) => out_of_service(),
    }
}

/// What a lookup reports when the record found could not be stored.
///
/// A field that cannot be stored at all makes the entry unavailable; every
/// other failure asks for a larger buffer.
pub open spec fn fill_failure(e: BufferFillError) -> NssReturn {
    match e {
        BufferFillError::ZeroByteInString => entry_not_available(),
        BufferFillError::InsufficientBuffer => insufficient_buffer(),
        BufferFillError::NullPointerError => insufficient_buffer(),
    }
}

/// Translates a failure of the directory client.
pub fn nss_lookup_failure(e: &GraphInfoRetrievalError) -> (r: NssReturn)
    ensures
        r == lookup_failure(e@),
{
    match e {
        GraphInfoRetrievalError::BadHTTPResponse { status, .. } => {
            if *status == HTTP_NOT_FOUND {
                nss_entry_not_available()
            } else {
                nss_out_of_service()
            }
        },
        GraphInfoRetrievalError::TooManyResults => nss_entry_not_available(),
        GraphInfoRetrievalError::NotFound => nss_entry_not_available(),
        GraphInfoRetrievalError::UnusableImmutableID => nss_entry_not_available(),
        _ => nss_out_of_service(),
    }
}

/// Translates a failure to store a record.
pub fn nss_fill_failure(e: BufferFillError) -> (r: NssReturn)
    ensures
        r == fill_failure(e),
{
    match e {
        BufferFillError::ZeroByteInString => nss_entry_not_available(),
        _ => nss_insufficient_buffer(),
    }
}

/// A user record that does not fit into the buffer offered has the caller
/// asked to come again with a larger one, as long as its fields can be
/// stored at all.
pub proof fn lemma_small_passwd_buffer_is_retried(
    capacity: nat,
    username: Seq<char>,
    fullname: Seq<char>,
)
    requires
        !has_nul(encode_utf8(username)),
        !has_nul(encode_utf8(fullname)),
        packed(passwd_fields(username, fullname)).len() > capacity,
    ensures
        passwd_fill(capacity, username, fullname) == Err::<PasswdEntry, _>(
            BufferFillError::InsufficientBuffer,
        ),
        fill_failure(passwd_fill(capacity, username, fullname)->Err_0) == insufficient_buffer(),
{
    lemma_passwd_fields_nul(username, fullname);
}

/// A group record that does not fit into the buffer offered has the caller
/// asked to come again with a larger one, as long as its fields can be
/// stored at all.
pub proof fn lemma_small_group_buffer_is_retried(
    capacity: nat,
    gid: u32,
    name: Seq<char>,
    members: Seq<UserRecord>,
)
    requires
        !has_nul(encode_utf8(name)),
        !any_nul(member_names(members)),
        packed(group_fields(name, members)).len() > capacity,
    ensures
        group_fill(capacity, gid, name, members) == Err::<GroupLayout, _>(
            BufferFillError::InsufficientBuffer,
        ),
        fill_failure(group_fill(capacity, gid, name, members)->Err_0) == insufficient_buffer(),
{
    lemma_group_fields_nul(name, members);
}

/// The security identifier of the principal `id` in the domain `domain_sid`.
pub open spec fn principal_sid(domain_sid: Seq<char>, id: u32) -> Seq<char> {
    domain_sid + "-"@ + decimal(id as nat)
}

/// The security identifier written for a principal carries the numeric id
/// of that principal.
pub proof fn lemma_principal_sid_carries_id(domain_sid: Seq<char>, id: u32)
    ensures
        relative_id(principal_sid(domain_sid, id)) == Some(id),
{
    reveal_strlit("-");
    assert("-"@ =~= seq!['-']);
    lemma_relative_id_of_suffix(domain_sid, id);
}

impl AadConfig {
    /// Writes the security identifier of the principal `id`.
    pub fn principal_sid(&self, id: u32) -> (r: String)
        ensures
            r@ == principal_sid(self.domain_sid@, id),
    {
        let mut sid = self.domain_sid.clone();
        sid.append("-");
        sid.append(to_decimal(id).as_str());
        sid
    }
}

/// A user record as the host takes it: the numeric ids, and where the
/// texts begin in the buffer.
#[derive(Debug, Clone, Copy, PartialEq, Eq, Structural)]
pub struct Passwd {
    pub uid: u32,
    pub gid: u32,
    pub entry: PasswdEntry,
}

/// What a lookup of a user returns, given what the directory said of the
/// user and the size of the buffer.
pub open spec fn passwd_reply(
    default_gid: u32,
    user: Result<UserRecord, GraphError>,
    capacity: nat,
) -> (NssReturn, Option<Passwd>) {
    match user {
        Err(e) => (lookup_failure(e), None),
        Ok(u) => match passwd_fill(capacity, u.username, u.fullname) {
            Err(e) => (fill_failure(e), None),
            Ok(entry) => (success(), Some(Passwd { uid: u.userid, gid: default_gid, entry })),
        },
    }
}

/// What a lookup of the user with the numeric id `uid` returns. A reserved
/// id has no entry, whatever the directory says.
pub open spec fn passwd_by_id_reply(
    default_gid: u32,
    uid: u32,
    user: Result<UserRecord, GraphError>,
    capacity: nat,
) -> (NssReturn, Option<Passwd>) {
    if uid < MIN_USABLE_ID {
        (entry_not_available(), None)
    } else {
        passwd_reply(default_gid, user, capacity)
    }
}

/// What a lookup of a group returns once the group is found, given what the
/// directory said of its members and the size of the buffer. A listing of
/// the members that failed fails the lookup as any other failure of the
/// directory does.
pub open spec fn stored_group_reply(
    gid: u32,
    name: Seq<char>,
    members: Result<Seq<UserRecord>, GraphError>,
    capacity: nat,
) -> (NssReturn, Option<GroupLayout>) {
    match members {
        Err(e) => (lookup_failure(e), None),
        Ok(list) => match group_fill(capacity, gid, name, list) {
            Err(e) => (fill_failure(e), None),
            Ok(entry) => (success(), Some(entry)),
        },
    }
}

/// What a lookup of the group named `name` returns, given what the
/// directory said of the group and of its members, and the size of the
/// buffer. The record carries the name asked for and the id found.
pub open spec fn group_by_name_reply(
    name: Seq<char>,
    group: Result<GroupRecord, GraphError>,
    members: Result<Seq<UserRecord>, GraphError>,
    capacity: nat,
) -> (NssReturn, Option<GroupLayout>) {
    match group {
        Err(e) => (lookup_failure(e), None),
        Ok(g) => stored_group_reply(g.group_id, name, members, capacity),
    }
}

/// What a lookup of the group with the numeric id `gid` returns. A reserved
/// id has no entry, whatever the directory says. The record carries the id
/// asked for and the name found.
pub open spec fn group_by_id_reply(
    gid: u32,
    group: Result<GroupRecord, GraphError>,
    members: Result<Seq<UserRecord>, GraphError>,
    capacity: nat,
) -> (NssReturn, Option<GroupLayout>) {
    if gid < MIN_USABLE_ID {
        (entry_not_available(), None)
    } else {
        match group {
            Err(e) => (lookup_failure(e), None),
            Ok(g) => stored_group_reply(gid, g.groupname, members, capacity),
        }
    }
}

/// The model of what a group lookup returns.
pub open spec fn group_reply_view(r: (NssReturn, Option<GroupEntry>)) -> (
    NssReturn,
    Option<GroupLayout>,
) {
    match r.1 {
        Some(entry) => (r.0, Some(entry@)),
        None => (r.0, None),
    }
}

/// Ends a lookup by numeric id at once where the id is reserved: such an id
/// has no entry, and nothing needs to be read or asked to say so.
pub fn refuse_reserved_id(id: u32) -> (r: Option<NssReturn>)
    ensures
        r == if id < MIN_USABLE_ID {
            Some(entry_not_available())
        } else {
            None
        },
{
    if id < MIN_USABLE_ID {
        Some(nss_entry_not_available())
    } else {
        None
    }
}

impl AadConfig {
    /// The query for the user with the numeric id `uid`, unless that id is
    /// reserved: then the lookup is over.
    pub fn user_by_id_query(&self, uid: u32) -> (r: Result<String, NssReturn>)
        ensures
            uid < MIN_USABLE_ID ==> r == Err::<String, _>(entry_not_available()),
            uid >= MIN_USABLE_ID ==> r is Ok && r->Ok_0@ == user_by_sid_url(
                self.tenant@,
                principal_sid(self.domain_sid@, uid),
            ),
    {
        if uid < MIN_USABLE_ID {
            return Err(nss_entry_not_available());
        }
        let sid = self.principal_sid(uid);
        Ok(self.user_by_sid_url(sid.as_str()))
    }

    /// The query for the group with the numeric id `gid`, unless that id is
    /// reserved: then the lookup is over.
    pub fn group_by_id_query(&self, gid: u32) -> (r: Result<String, NssReturn>)
        ensures
            gid < MIN_USABLE_ID ==> r == Err::<String, _>(entry_not_available()),
            gid >= MIN_USABLE_ID ==> r is Ok && r->Ok_0@ == group_by_sid_url(
                self.tenant@,
                principal_sid(self.domain_sid@, gid),
            ),
    {
        if gid < MIN_USABLE_ID {
            return Err(nss_entry_not_available());
        }
        let sid = self.principal_sid(gid);
        Ok(self.group_by_sid_url(sid.as_str()))
    }
}

/// Answers a lookup of a user by name: `user` is what the directory said.
///
/// The buffer is written only where the lookup succeeds.
pub fn getpwnam_r(config: &AadConfig, user: GraphInfoResult<UserInfo>, buffer: &mut [u8]) -> (r: (
    NssReturn,
    Option<Passwd>,
))
    ensures
        r == passwd_reply(config.default_user_group_id, outcome(user), old(buffer)@.len()),
        r.1 is None ==> final(buffer)@ == old(buffer)@,
        r.1 is Some ==> final(buffer)@ == packed(
            passwd_fields(user->Ok_0@.username, user->Ok_0@.fullname),
        ) + old(buffer)@.skip(
            packed(passwd_fields(user->Ok_0@.username, user->Ok_0@.fullname)).len() as int,
        ),
{
    let userinfo = match user {
        Ok(userinfo) => userinfo,
        Err(e) => {
            return (nss_lookup_failure(&e), None);
        },
    };
    match fill_passwd_buf(buffer, userinfo.username().as_str(), userinfo.fullname().as_str()) {
        Ok(entry) => (
            nss_success(),
            Some(Passwd { uid: userinfo.userid(), gid: config.default_user_group_id, entry }),
        ),
        Err(e) => (nss_fill_failure(e), None),
    }
}

/// Answers a lookup of a user by numeric id: `user` is what the directory
/// said in answer to [`AadConfig::user_by_id_query`].
///
/// The buffer is written only where the lookup succeeds.
pub fn getpwuid_r(
    config: &AadConfig,
    uid: u32,
    user: GraphInfoResult<UserInfo>,
    buffer: &mut [u8],
) -> (r: (NssReturn, Option<Passwd>))
    ensures
        r == passwd_by_id_reply(
            config.default_user_group_id,
            uid,
            outcome(user),
            old(buffer)@.len(),
        ),
        r.1 is None ==> final(buffer)@ == old(buffer)@,
        r.1 is Some ==> final(buffer)@ == packed(
            passwd_fields(user->Ok_0@.username, user->Ok_0@.fullname),
        ) + old(buffer)@.skip(
            packed(passwd_fields(user->Ok_0@.username, user->Ok_0@.fullname)).len() as int,
        ),
{
    if uid < MIN_USABLE_ID {
        return (nss_entry_not_available(), None);
    }
    getpwnam_r(config, user, buffer)
}

/// Stores a group that was found, with its members, and says what the
/// lookup returns.
fn store_group(
    gid: u32,
    name: &str,
    members: GraphInfoResult<Vec<UserInfo>>,
    buffer: &mut [u8],
) -> (r: (NssReturn, Option<GroupEntry>))
    ensures
        group_reply_view(r) == stored_group_reply(
            gid,
            name@,
            outcome(members),
            old(buffer)@.len(),
        ),
        r.1 is None ==> final(buffer)@ == old(buffer)@,
        r.1 is Some ==> members is Ok && final(buffer)@ == packed(
            group_fields(name@, members->Ok_0.deep_view()),
        ) + old(buffer)@.skip(
            packed(group_fields(name@, members->Ok_0.deep_view())).len() as int,
        ),
{
    let groupmembers = match members {
        Ok(list) => list,
        Err(e) => {
            return (nss_lookup_failure(&e), None);
        },
    };
    let list = groupmembers.as_slice();
    assert(list.deep_view() =~= groupmembers.deep_view());
    match fill_group_buf(buffer, gid, name, list) {
        Ok(entry) => (nss_success(), Some(entry)),
        Err(e) => (nss_fill_failure(e), None),
    }
}

/// Answers a lookup of a group by name: `group` and `members` are what the
/// directory said of the group and of its members. The members count only
/// where the group was found; there a listing that failed fails the lookup.
///
/// The buffer is written only where the lookup succeeds.
pub fn getgrnam_r(
    name: &str,
    group: GraphInfoResult<GroupInfo>,
    members: GraphInfoResult<Vec<UserInfo>>,
    buffer: &mut [u8],
) -> (r: (NssReturn, Option<GroupEntry>))
    ensures
        group_reply_view(r) == group_by_name_reply(
            name@,
            outcome(group),
            outcome(members),
            old(buffer)@.len(),
        ),
        r.1 is None ==> final(buffer)@ == old(buffer)@,
        r.1 is Some ==> members is Ok && final(buffer)@ == packed(
            group_fields(name@, members->Ok_0.deep_view()),
        ) + old(buffer)@.skip(
            packed(group_fields(name@, members->Ok_0.deep_view())).len() as int,
        ),
{
    let groupinfo = match group {
        Ok(groupinfo) => groupinfo,
        Err(e) => {
            return (nss_lookup_failure(&e), None);
        },
    };
    store_group(groupinfo.group_id(), name, members, buffer)
}

/// Answers a lookup of a group by numeric id: `group` is what the directory
/// said in answer to [`AadConfig::group_by_id_query`], `members` what it said
/// of the group's members. The members count only where the group was
/// found; there a listing that failed fails the lookup.
///
/// The buffer is written only where the lookup succeeds.
pub fn getgrgid_r(
    gid: u32,
    group: GraphInfoResult<GroupInfo>,
    members: GraphInfoResult<Vec<UserInfo>>,
    buffer: &mut [u8],
) -> (r: (NssReturn, Option<GroupEntry>))
    ensures
        group_reply_view(r) == group_by_id_reply(
            gid,
            outcome(group),
            outcome(members),
            old(buffer)@.len(),
        ),
        r.1 is None ==> final(buffer)@ == old(buffer)@,
        r.1 is Some ==> members is Ok && final(buffer)@ == packed(
            group_fields(group->Ok_0@.groupname, members->Ok_0.deep_view()),
        ) + old(buffer)@.skip(
            packed(group_fields(group->Ok_0@.groupname, members->Ok_0.deep_view())).len() as int,
        ),
{
    if gid < MIN_USABLE_ID {
        return (nss_entry_not_available(), None);
    }
    let groupinfo = match group {
        Ok(groupinfo) => groupinfo,
        Err(e) => {
            return (nss_lookup_failure(&e), None);
        },
    };
    store_group(gid, groupinfo.groupname().as_str(), members, buffer)
}

} // verus!
