use nss_aad::buffer::read_c_string;
use nss_aad::buffer::GroupEntry;
use nss_aad::buffer::PasswdEntry;
use nss_aad::error::BufferFillError;
use nss_aad::error::GraphInfoRetrievalError;
use nss_aad::initgroups::append_group_ids;
use nss_aad::initgroups::initgroups_dyn;
use nss_aad::initgroups::qualifying_group_ids;
use nss_aad::nss::getgrgid_r;
use nss_aad::nss::getgrnam_r;
use nss_aad::nss::getpwnam_r;
use nss_aad::nss::getpwuid_r;
use nss_aad::nss::nss_entry_not_available;
use nss_aad::nss::nss_fill_failure;
use nss_aad::nss::nss_input_file_err;
use nss_aad::nss::nss_insufficient_buffer;
use nss_aad::nss::nss_lookup_failure;
use nss_aad::nss::nss_no_entries_available;
use nss_aad::nss::nss_out_of_service;
use nss_aad::nss::nss_success;
use nss_aad::nss::refuse_reserved_id;
use nss_aad::nss::Errno;
use nss_aad::nss::NssReturn;
use nss_aad::nss::NssStatus;
use nss_aad::nss::Passwd;
use nss_aad::AadConfig;
use nss_aad::GroupInfo;
use nss_aad::UserInfo;

fn config() -> AadConfig {
    AadConfig {
        client_id: "id".to_string(),
        client_secret: "secret".to_string(),
        domain_sid: "S-1-5-21-1-2-3".to_string(),
        default_user_group_id: 5000,
        tenant: "example.org".to_string(),
        group_ids: vec![
            ("g1".to_string(), 2001),
            ("g2".to_string(), 2002),
            ("g3".to_string(), 2003),
            ("g4".to_string(), 2004),
            ("g5".to_string(), 2005),
        ],
    }
}

fn user(name: &str, display: &str, id: u32) -> UserInfo {
    UserInfo::new(name.to_string(), display.to_string(), id).unwrap()
}

fn group(name: &str, id: u32) -> GroupInfo {
    GroupInfo::new(name.to_string(), format!("object-{}", id), id).unwrap()
}

fn five_groups() -> Vec<GroupInfo> {
    vec![group("g1", 9001), group("g2", 9002), group("g3", 9003), group("g4", 9004), group("g5", 9005)]
}

const TRY_AGAIN_EAGAIN: NssReturn = NssReturn { status: NssStatus::TryAgain, errno: Some(Errno::Eagain) };
const TRY_AGAIN_ERANGE: NssReturn = NssReturn { status: NssStatus::TryAgain, errno: Some(Errno::Erange) };
const NOT_FOUND_ENOENT: NssReturn = NssReturn { status: NssStatus::NotFound, errno: Some(Errno::Enoent) };
const UNAVAILABLE_ENOENT: NssReturn = NssReturn { status: NssStatus::Unavailable, errno: Some(Errno::Enoent) };
const SUCCESS: NssReturn = NssReturn { status: NssStatus::Success, errno: None };

#[test]
fn status_codes() {
    assert_eq!(NssStatus::TryAgain.code(), -2);
    assert_eq!(NssStatus::Unavailable.code(), -1);
    assert_eq!(NssStatus::NotFound.code(), 0);
    assert_eq!(NssStatus::Success.code(), 1);
}

#[test]
fn named_outcomes() {
    assert_eq!(nss_out_of_service(), TRY_AGAIN_EAGAIN);
    assert_eq!(nss_insufficient_buffer(), TRY_AGAIN_ERANGE);
    assert_eq!(nss_input_file_err(), UNAVAILABLE_ENOENT);
    assert_eq!(nss_entry_not_available(), NOT_FOUND_ENOENT);
    assert_eq!(nss_no_entries_available(), NssReturn { status: NssStatus::NotFound, errno: None });
    assert_eq!(nss_success(), SUCCESS);
}

#[test]
fn lookup_failures_are_translated() {
    let http = |status: u16| GraphInfoRetrievalError::BadHTTPResponse { status, data: String::new() };
    assert_eq!(nss_lookup_failure(&http(404)), NOT_FOUND_ENOENT);
    assert_eq!(nss_lookup_failure(&http(500)), TRY_AGAIN_EAGAIN);
    assert_eq!(nss_lookup_failure(&http(401)), TRY_AGAIN_EAGAIN);
    assert_eq!(nss_lookup_failure(&http(403)), TRY_AGAIN_EAGAIN);
    assert_eq!(nss_lookup_failure(&GraphInfoRetrievalError::TooManyResults), NOT_FOUND_ENOENT);
    assert_eq!(nss_lookup_failure(&GraphInfoRetrievalError::NotFound), NOT_FOUND_ENOENT);
    assert_eq!(nss_lookup_failure(&GraphInfoRetrievalError::UnusableImmutableID), NOT_FOUND_ENOENT);
    assert_eq!(nss_lookup_failure(&GraphInfoRetrievalError::BadJSONResponse), TRY_AGAIN_EAGAIN);
    assert_eq!(
        nss_lookup_failure(&GraphInfoRetrievalError::NoAccessToken { response: "{}".to_string() }),
        TRY_AGAIN_EAGAIN
    );
    assert_eq!(
        nss_lookup_failure(&GraphInfoRetrievalError::HTTPError("refused".to_string())),
        TRY_AGAIN_EAGAIN
    );
}

#[test]
fn fill_failures_are_translated() {
    assert_eq!(nss_fill_failure(BufferFillError::InsufficientBuffer), TRY_AGAIN_ERANGE);
    assert_eq!(nss_fill_failure(BufferFillError::NullPointerError), TRY_AGAIN_ERANGE);
    assert_eq!(nss_fill_failure(BufferFillError::ZeroByteInString), NOT_FOUND_ENOENT);
}

#[test]
fn security_identifier_of_principal() {
    assert_eq!(config().principal_sid(1001), "S-1-5-21-1-2-3-1001");
    assert_eq!(config().principal_sid(0), "S-1-5-21-1-2-3-0");
}

#[test]
fn queries_by_id_refuse_reserved_ids() {
    let c = config();
    assert_eq!(c.user_by_id_query(999), Err(NOT_FOUND_ENOENT));
    assert_eq!(c.user_by_id_query(0), Err(NOT_FOUND_ENOENT));
    assert_eq!(
        c.user_by_id_query(1000),
        Ok("https://graph.windows.net/example.org/users?$filter=onPremisesSecurityIdentifier+eq+'S-1-5-21-1-2-3-1000'&api-version=1.6".to_string())
    );
    assert_eq!(c.group_by_id_query(999), Err(NOT_FOUND_ENOENT));
    assert_eq!(
        c.group_by_id_query(2000),
        Ok("https://graph.windows.net/example.org/groups?$filter=onPremisesSecurityIdentifier+eq+'S-1-5-21-1-2-3-2000'&api-version=1.6".to_string())
    );
}

#[test]
fn getpwnam_stores_the_user() {
    let mut buffer = vec![0u8; 64];
    let (ret, passwd) = getpwnam_r(&config(), Ok(user("alice", "Alice A", 1001)), &mut buffer);
    assert_eq!(ret, SUCCESS);
    assert_eq!(
        passwd,
        Some(Passwd {
            uid: 1001,
            gid: 5000,
            entry: PasswdEntry { name: 0, passwd: 6, gecos: 8, shell: 16, dir: 26 },
        })
    );
    assert_eq!(read_c_string(&buffer, 26), b"/home/alice".to_vec());
}

#[test]
fn getpwnam_reports_failures() {
    let mut buffer = vec![3u8; 64];
    let missing = GraphInfoRetrievalError::BadHTTPResponse { status: 404, data: String::new() };
    assert_eq!(getpwnam_r(&config(), Err(missing), &mut buffer), (NOT_FOUND_ENOENT, None));
    let broken = GraphInfoRetrievalError::BadHTTPResponse { status: 503, data: String::new() };
    assert_eq!(getpwnam_r(&config(), Err(broken), &mut buffer), (TRY_AGAIN_EAGAIN, None));
    assert_eq!(
        getpwnam_r(&config(), Err(GraphInfoRetrievalError::UnusableImmutableID), &mut buffer),
        (NOT_FOUND_ENOENT, None)
    );
    assert_eq!(buffer, vec![3u8; 64]);
    let mut small = vec![3u8; 10];
    assert_eq!(
        getpwnam_r(&config(), Ok(user("alice", "Alice A", 1001)), &mut small),
        (TRY_AGAIN_ERANGE, None)
    );
    assert_eq!(small, vec![3u8; 10]);
    assert_eq!(
        getpwnam_r(&config(), Ok(user("al\0ice", "Alice A", 1001)), &mut buffer),
        (NOT_FOUND_ENOENT, None)
    );
    assert_eq!(buffer, vec![3u8; 64]);
}

#[test]
fn getpwuid_refuses_reserved_ids() {
    let mut buffer = vec![3u8; 64];
    assert_eq!(
        getpwuid_r(&config(), 999, Ok(user("alice", "Alice A", 1001)), &mut buffer),
        (NOT_FOUND_ENOENT, None)
    );
    assert_eq!(buffer, vec![3u8; 64]);
    let (ret, passwd) = getpwuid_r(&config(), 1001, Ok(user("alice", "Alice A", 1001)), &mut buffer);
    assert_eq!(ret, SUCCESS);
    assert_eq!(passwd.unwrap().uid, 1001);
    assert_eq!(
        getpwuid_r(&config(), 1001, Err(GraphInfoRetrievalError::TooManyResults), &mut buffer),
        (NOT_FOUND_ENOENT, None)
    );
}

#[test]
fn getgrnam_stores_the_group_under_the_name_asked_for() {
    let mut buffer = vec![0u8; 64];
    let found = GroupInfo::new("Staff".to_string(), "0a".to_string(), 2000).unwrap();
    let members = vec![user("alice", "A", 1001), user("bob", "B", 1002)];
    let (ret, entry) = getgrnam_r("staff", Ok(found), Ok(members), &mut buffer);
    assert_eq!(ret, SUCCESS);
    assert_eq!(entry, Some(GroupEntry { gid: 2000, name: 0, passwd: 6, members: vec![8, 14] }));
    assert_eq!(&buffer[..18], b"staff\0!\0alice\0bob\0");
}

#[test]
fn getgrnam_fails_where_the_members_cannot_be_listed() {
    let mut buffer = vec![4u8; 64];
    let found = GroupInfo::new("staff".to_string(), "0a".to_string(), 2000).unwrap();
    let (ret, entry) = getgrnam_r(
        "staff",
        Ok(found.clone()),
        Err(GraphInfoRetrievalError::BadHTTPResponse { status: 500, data: String::new() }),
        &mut buffer,
    );
    assert_eq!(ret, TRY_AGAIN_EAGAIN);
    assert_eq!(entry, None);
    assert_eq!(buffer, vec![4u8; 64]);
    let (ret, entry) = getgrnam_r(
        "staff",
        Ok(found.clone()),
        Err(GraphInfoRetrievalError::BadHTTPResponse { status: 404, data: String::new() }),
        &mut buffer,
    );
    assert_eq!(ret, NOT_FOUND_ENOENT);
    assert_eq!(entry, None);
    let (ret, entry) = getgrnam_r(
        "staff",
        Ok(found),
        Err(GraphInfoRetrievalError::HTTPError("reset".to_string())),
        &mut buffer,
    );
    assert_eq!(ret, TRY_AGAIN_EAGAIN);
    assert_eq!(entry, None);
    assert_eq!(buffer, vec![4u8; 64]);
}

#[test]
fn getgrnam_stores_a_group_without_members() {
    let mut buffer = vec![0u8; 64];
    let found = GroupInfo::new("staff".to_string(), "0a".to_string(), 2000).unwrap();
    let (ret, entry) = getgrnam_r("staff", Ok(found), Ok(vec![]), &mut buffer);
    assert_eq!(ret, SUCCESS);
    assert_eq!(entry, Some(GroupEntry { gid: 2000, name: 0, passwd: 6, members: vec![] }));
}

#[test]
fn getgrnam_group_failure_counts_before_members() {
    let mut buffer = vec![4u8; 64];
    let (ret, entry) = getgrnam_r(
        "staff",
        Err(GraphInfoRetrievalError::NotFound),
        Err(GraphInfoRetrievalError::BadJSONResponse),
        &mut buffer,
    );
    assert_eq!(ret, NOT_FOUND_ENOENT);
    assert_eq!(entry, None);
}

#[test]
fn getgrgid_fails_where_the_members_cannot_be_listed() {
    let mut buffer = vec![4u8; 64];
    let found = GroupInfo::new("staff".to_string(), "0a".to_string(), 2000).unwrap();
    let (ret, entry) = getgrgid_r(
        2000,
        Ok(found),
        Err(GraphInfoRetrievalError::BadHTTPResponse { status: 500, data: String::new() }),
        &mut buffer,
    );
    assert_eq!(ret, TRY_AGAIN_EAGAIN);
    assert_eq!(entry, None);
    assert_eq!(buffer, vec![4u8; 64]);
}

#[test]
fn getpwnam_empty_buffer_asks_for_more() {
    let mut buffer: Vec<u8> = Vec::new();
    assert_eq!(
        getpwnam_r(&config(), Ok(user("alice", "Alice A", 1001)), &mut buffer),
        (TRY_AGAIN_ERANGE, None)
    );
}

#[test]
fn getgrnam_reports_failures() {
    let mut buffer = vec![4u8; 64];
    assert_eq!(
        getgrnam_r("staff", Err(GraphInfoRetrievalError::NotFound), Ok(vec![]), &mut buffer),
        (NOT_FOUND_ENOENT, None)
    );
    assert_eq!(
        getgrnam_r("staff", Err(GraphInfoRetrievalError::TooManyResults), Ok(vec![]), &mut buffer),
        (NOT_FOUND_ENOENT, None)
    );
    assert_eq!(
        getgrnam_r("staff", Err(GraphInfoRetrievalError::BadJSONResponse), Ok(vec![]), &mut buffer),
        (TRY_AGAIN_EAGAIN, None)
    );
    let found = GroupInfo::new("staff".to_string(), "0a".to_string(), 2000).unwrap();
    let mut small = vec![4u8; 7];
    assert_eq!(getgrnam_r("staff", Ok(found), Ok(vec![]), &mut small), (TRY_AGAIN_ERANGE, None));
    assert_eq!(small, vec![4u8; 7]);
    assert_eq!(buffer, vec![4u8; 64]);
}

#[test]
fn getgrgid_stores_the_group_under_the_id_asked_for() {
    let mut buffer = vec![0u8; 64];
    let found = GroupInfo::new("staff".to_string(), "0a".to_string(), 2000).unwrap();
    let (ret, entry) = getgrgid_r(2000, Ok(found), Ok(vec![user("alice", "A", 1001)]), &mut buffer);
    assert_eq!(ret, SUCCESS);
    assert_eq!(entry, Some(GroupEntry { gid: 2000, name: 0, passwd: 6, members: vec![8] }));
    assert_eq!(&buffer[..14], b"staff\0!\0alice\0");
}

#[test]
fn getgrgid_refuses_reserved_ids() {
    let mut buffer = vec![4u8; 64];
    let found = GroupInfo::new("staff".to_string(), "0a".to_string(), 2000).unwrap();
    assert_eq!(getgrgid_r(513, Ok(found), Ok(vec![]), &mut buffer), (NOT_FOUND_ENOENT, None));
    assert_eq!(buffer, vec![4u8; 64]);
}

#[test]
fn qualifying_ids_follow_the_allow_list() {
    let mut c = config();
    c.group_ids = vec![("staff".to_string(), 2000), ("ops".to_string(), 2001), ("dev".to_string(), 2002)];
    let groups = vec![group("ops", 9001), group("hidden", 9002), group("staff", 9003), group("dev", 9004)];
    assert_eq!(qualifying_group_ids(&c, &groups, 0), vec![2001, 2000, 2002]);
    assert_eq!(qualifying_group_ids(&c, &groups, 2000), vec![2001, 2002]);
    assert_eq!(qualifying_group_ids(&c, &Vec::new(), 0), Vec::<u32>::new());
}

#[test]
fn expansion_is_cut_at_the_limit() {
    let mut ids = vec![0u32; 2];
    let (ret, next) = initgroups_dyn(&config(), Ok(five_groups()), 7, &mut ids, 0, 3);
    assert_eq!(ret, SUCCESS);
    assert_eq!(next, 3);
    assert_eq!(ids, vec![2001, 2002, 2003]);
}

#[test]
fn expansion_grows_the_list_as_needed() {
    let mut ids = vec![100u32, 0];
    let (ret, next) = initgroups_dyn(&config(), Ok(five_groups()), 2003, &mut ids, 1, 64);
    assert_eq!(ret, SUCCESS);
    assert_eq!(next, 5);
    assert_eq!(ids, vec![100, 2001, 2002, 2004, 2005]);
}

#[test]
fn expansion_keeps_what_lies_behind() {
    let mut ids = vec![100u32, 7, 7, 7, 7, 7, 7, 8];
    let next = append_group_ids(&mut ids, 1, 64, &vec![1, 2, 3]);
    assert_eq!(next, 4);
    assert_eq!(ids, vec![100, 1, 2, 3, 7, 7, 7, 8]);
}

#[test]
fn expansion_at_or_beyond_the_limit_writes_nothing() {
    let mut ids = vec![1u32, 2, 3];
    assert_eq!(append_group_ids(&mut ids, 3, 3, &vec![9, 9]), 3);
    assert_eq!(ids, vec![1, 2, 3]);
    assert_eq!(append_group_ids(&mut ids, 2, 1, &vec![9, 9]), 2);
    assert_eq!(ids, vec![1, 2, 3]);
    assert_eq!(append_group_ids(&mut ids, 0, 0, &vec![9, 9]), 0);
    assert_eq!(ids, vec![1, 2, 3]);
}

#[test]
fn expansion_below_capacity_is_still_cut() {
    let mut ids = vec![0u32; 10];
    assert_eq!(append_group_ids(&mut ids, 0, 3, &vec![1, 2, 3, 4, 5]), 3);
    assert_eq!(ids, vec![1, 2, 3, 0, 0, 0, 0, 0, 0, 0]);
}

#[test]
fn expansion_without_groups_succeeds() {
    let mut ids = vec![5u32, 6];
    let (ret, next) = initgroups_dyn(&config(), Ok(vec![group("hidden", 9001)]), 0, &mut ids, 1, 8);
    assert_eq!(ret, SUCCESS);
    assert_eq!(next, 1);
    assert_eq!(ids, vec![5, 6]);
    let (ret, next) = initgroups_dyn(&config(), Ok(vec![]), 0, &mut ids, 2, 8);
    assert_eq!(ret, SUCCESS);
    assert_eq!(next, 2);
    assert_eq!(ids, vec![5, 6]);
}

#[test]
fn expansion_reports_failures() {
    let mut ids = vec![5u32, 6];
    let (ret, next) = initgroups_dyn(&config(), Err(GraphInfoRetrievalError::NotFound), 0, &mut ids, 1, 8);
    assert_eq!(ret, NOT_FOUND_ENOENT);
    assert_eq!(next, 1);
    assert_eq!(ids, vec![5, 6]);
    let (ret, _) = initgroups_dyn(
        &config(),
        Err(GraphInfoRetrievalError::HTTPError("refused".to_string())),
        0,
        &mut ids,
        1,
        8,
    );
    assert_eq!(ret, TRY_AGAIN_EAGAIN);
    assert_eq!(ids, vec![5, 6]);
}

#[test]
fn reserved_ids_are_refused_at_once() {
    assert_eq!(refuse_reserved_id(0), Some(NOT_FOUND_ENOENT));
    assert_eq!(refuse_reserved_id(999), Some(NOT_FOUND_ENOENT));
    assert_eq!(refuse_reserved_id(1000), None);
    assert_eq!(refuse_reserved_id(4294967295), None);
}
