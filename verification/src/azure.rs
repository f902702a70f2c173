//! The directory client: which requests a lookup sends, and what it makes of
//! the answers.
//!
//! The client never touches the network. The caller sends each request and
//! hands back what came of it: the body of the answer, or the failure.

use vstd::prelude::*;
use vstd::string::StringExecFns;
use serde_json::Value;
use crate::error::outcome;
use crate::error::GraphError;
use crate::error::GraphInfoResult;
use crate::error::GraphInfoRetrievalError;
use crate::json::json_member;
use crate::json::json_of;
use crate::json::json_parse;
use crate::json::jsons_of;
use crate::json::member;
use crate::json::parse_json;
use crate::json::text_member;
use crate::json::Json;
use crate::text::contains;
use crate::text::occurs_in;
use crate::text::relative_id;
use crate::directory_group;
use crate::directory_user;
use crate::lemma_reserved_id_is_unusable;
use crate::AadConfig;
use crate::GroupInfo;
use crate::GroupRecord;
use crate::UserInfo;
use crate::UserRecord;
use crate::MIN_USABLE_ID;

verus! {

/// The status of an answer that carries what was asked for.
pub const HTTP_OK: u16 = 200;

/// Where tokens are issued for `tenant`.
pub open spec fn token_url(tenant: Seq<char>) -> Seq<char> {
    "https://login.microsoftonline.com/"@ + tenant + "/oauth2/token?api-version=1.0"@
}

/// Where the user `username` is described.
pub open spec fn user_url(tenant: Seq<char>, username: Seq<char>) -> Seq<char> {
    "https://graph.windows.net/"@ + tenant + "/users/"@ + username + "?api-version=1.6"@
}

/// The query for the users with the security identifier `sid`.
pub open spec fn user_by_sid_url(tenant: Seq<char>, sid: Seq<char>) -> Seq<char> {
    "https://graph.windows.net/"@ + tenant + "/users?$filter=onPremisesSecurityIdentifier+eq+'"@
        + sid + "'&api-version=1.6"@
}

/// The query for the groups named `groupname`.
pub open spec fn group_url(tenant: Seq<char>, groupname: Seq<char>) -> Seq<char> {
    "https://graph.windows.net/"@ + tenant + "/groups/?api-version=1.6&$filter=displayName+eq+'"@
        + groupname + "'"@
}

/// The query for the groups with the security identifier `sid`.
pub open spec fn group_by_sid_url(tenant: Seq<char>, sid: Seq<char>) -> Seq<char> {
    "https://graph.windows.net/"@ + tenant + "/groups?$filter=onPremisesSecurityIdentifier+eq+'"@
        + sid + "'&api-version=1.6"@
}

/// Where the members of the group with the object id `object_id` are listed.
pub open spec fn group_members_url(tenant: Seq<char>, object_id: Seq<char>) -> Seq<char> {
    "https://graph.windows.net/"@ + tenant + "/groups/"@ + object_id + "/members?api-version=1.6"@
}

/// Where the groups of the user `username` are listed, first page.
pub open spec fn user_groups_url(tenant: Seq<char>, username: Seq<char>) -> Seq<char> {
    "https://graph.windows.net/"@ + tenant + "/users/"@ + username + "/memberOf?api-version=1.6"@
}

/// Where the page behind the continuation `link` is found.
pub open spec fn next_page_url(tenant: Seq<char>, link: Seq<char>) -> Seq<char> {
    "https://graph.windows.net/"@ + tenant + "/"@ + link + "&api-version=1.6"@
}

/// `a`, `b`, `c`, `d` and `e` one behind the other.
fn join(a: &str, b: &str, c: &str, d: &str, e: &str) -> (r: String)
    ensures
        r@ == a@ + b@ + c@ + d@ + e@,
{
    let mut r = String::from_str(a);
    r.append(b);
    r.append(c);
    r.append(d);
    r.append(e);
    r
}

impl AadConfig {
    /// The address of the token endpoint.
    pub fn token_url(&self) -> (r: String)
        ensures
            r@ == token_url(self.tenant@),
    {
        let r = join(
            "https://login.microsoftonline.com/",
            self.tenant.as_str(),
            "/oauth2/token?api-version=1.0",
            "",
            "",
        );
        proof {
            reveal_strlit("");
        }
        assert(r@ =~= token_url(self.tenant@));
        r
    }

    /// The address that describes the user `username`.
    pub fn user_url(&self, username: &str) -> (r: String)
        ensures
            r@ == user_url(self.tenant@, username@),
    {
        join(
            "https://graph.windows.net/",
            self.tenant.as_str(),
            "/users/",
            username,
            "?api-version=1.6",
        )
    }

    /// The query for the users with the security identifier `sid`.
    pub fn user_by_sid_url(&self, sid: &str) -> (r: String)
        ensures
            r@ == user_by_sid_url(self.tenant@, sid@),
    {
        join(
            "https://graph.windows.net/",
            self.tenant.as_str(),
            "/users?$filter=onPremisesSecurityIdentifier+eq+'",
            sid,
            "'&api-version=1.6",
        )
    }

    /// The query for the groups named `groupname`.
    pub fn group_url(&self, groupname: &str) -> (r: String)
        ensures
            r@ == group_url(self.tenant@, groupname@),
    {
        join(
            "https://graph.windows.net/",
            self.tenant.as_str(),
            "/groups/?api-version=1.6&$filter=displayName+eq+'",
            groupname,
            "'",
        )
    }

    /// The query for the groups with the security identifier `sid`.
    pub fn group_by_sid_url(&self, sid: &str) -> (r: String)
        ensures
            r@ == group_by_sid_url(self.tenant@, sid@),
    {
        join(
            "https://graph.windows.net/",
            self.tenant.as_str(),
            "/groups?$filter=onPremisesSecurityIdentifier+eq+'",
            sid,
            "'&api-version=1.6",
        )
    }

    /// The address that lists the members of the group with the object id `object_id`.
    pub fn group_members_url(&self, object_id: &str) -> (r: String)
        ensures
            r@ == group_members_url(self.tenant@, object_id@),
    {
        join(
            "https://graph.windows.net/",
            self.tenant.as_str(),
            "/groups/",
            object_id,
            "/members?api-version=1.6",
        )
    }

    /// The address of the first page that lists the groups of `username`.
    pub fn user_groups_url(&self, username: &str) -> (r: String)
        ensures
            r@ == user_groups_url(self.tenant@, username@),
    {
        join(
            "https://graph.windows.net/",
            self.tenant.as_str(),
            "/users/",
            username,
            "/memberOf?api-version=1.6",
        )
    }
}

/// The `application/x-www-form-urlencoded` text that
/// `url::form_urlencoded::Serializer` writes for a list of name and value
/// pairs.
pub uninterp spec fn form_urlencoded(pairs: Seq<(Seq<char>, Seq<char>)>) -> Seq<char>;

/// `url::form_urlencoded::Serializer`, fed with `pairs` in order and
/// finished: the text depends on the pairs alone.
#[verifier::external_body]
fn form_urlencode(pairs: &Vec<(String, String)>) -> (body: String)
    ensures
        body@ == form_urlencoded(pairs.deep_view()),
{
    url::form_urlencoded::Serializer::new(String::new()).extend_pairs(pairs.iter()).finish()
}

/// A request for a token: the form in `body` is posted to `url`.
#[derive(Debug, Clone, PartialEq, Eq)]
pub struct TokenRequest {
    pub url: String,
    pub body: String,
}

/// The fields of the form that asks for a token with the client's credentials.
pub open spec fn token_form(client_id: Seq<char>, client_secret: Seq<char>) -> Seq<
    (Seq<char>, Seq<char>),
> {
    seq![
        ("resource"@, "https://graph.windows.net/"@),
        ("grant_type"@, "client_credentials"@),
        ("client_id"@, client_id),
        ("client_secret"@, client_secret),
    ]
}

/// An answer of the service: its status and the text of its body.
#[derive(Debug, Clone, PartialEq, Eq)]
pub struct HttpResponse {
    pub status: u16,
    pub body: String,
}

/// The text of an answer, where its status is success; else the answer as a
/// failure.
pub open spec fn response_text(status: u16, body: Seq<char>) -> Result<Seq<char>, GraphError> {
    if status == HTTP_OK {
        Ok(body)
    } else {
        Err(GraphError::BadHTTPResponse { status, data: body })
    }
}

/// The access token in the parsed answer of the token endpoint.
pub open spec fn token_of(text: Seq<char>, parsed: Option<Json>) -> Result<Seq<char>, GraphError> {
    match parsed {
        None => Err(GraphError::BadJSONResponse),
        Some(doc) => match text_member(doc, "access_token"@) {
            Some(token) => Ok(token),
            None => Err(GraphError::NoAccessToken { response: text }),
        },
    }
}

/// The user that a directory entry describes.
pub open spec fn user_of(entry: Json) -> Result<UserRecord, GraphError> {
    directory_user(
        text_member(entry, "userPrincipalName"@),
        text_member(entry, "displayName"@),
        text_member(entry, "onPremisesSecurityIdentifier"@),
    )
}

/// The group that a directory entry describes.
pub open spec fn group_of(entry: Json) -> Result<GroupRecord, GraphError> {
    directory_group(
        text_member(entry, "displayName"@),
        text_member(entry, "objectId"@),
        text_member(entry, "onPremisesSecurityIdentifier"@),
    )
}

/// A directory entry whose security identifier carries a reserved numeric id
/// describes neither a user nor a group, whatever else it holds; where its
/// other fields are there, it is refused as unusable.
pub proof fn lemma_reserved_entry_is_unusable(entry: Json)
    requires
        text_member(entry, "onPremisesSecurityIdentifier"@) matches Some(sid) && relative_id(sid)
            matches Some(id) && id < MIN_USABLE_ID,
    ensures
        user_of(entry) is Err,
        group_of(entry) is Err,
        text_member(entry, "userPrincipalName"@) is Some && text_member(entry, "displayName"@)
            is Some ==> user_of(entry) == Err::<UserRecord, _>(GraphError::UnusableImmutableID),
        text_member(entry, "displayName"@) is Some && text_member(entry, "objectId"@) is Some
            ==> group_of(entry) == Err::<GroupRecord, _>(GraphError::UnusableImmutableID),
{
    let sid = text_member(entry, "onPremisesSecurityIdentifier"@)->0;
    lemma_reserved_id_is_unusable(
        text_member(entry, "userPrincipalName"@),
        text_member(entry, "displayName"@),
        sid,
    );
    lemma_reserved_id_is_unusable(
        text_member(entry, "displayName"@),
        text_member(entry, "objectId"@),
        sid,
    );
}

/// The values among the results, in order; a failure is left out.
pub open spec fn kept<T>(results: Seq<Result<T, GraphError>>) -> Seq<T>
    decreases results.len(),
{
    if results.len() == 0 {
        Seq::empty()
    } else {
        match results.last() {
            Ok(value) => kept(results.drop_last()).push(value),
            Err(_) => kept(results.drop_last()),
        }
    }
}

/// What each of a list of results stands for.
pub open spec fn outcomes<T: DeepView>(results: Seq<GraphInfoResult<T>>) -> Seq<
    Result<T::V, GraphError>,
> {
    results.map_values(|r: GraphInfoResult<T>| outcome(r))
}

/// The users among the entries, in order; an entry that describes no usable
/// user is left out.
pub open spec fn usable_users(entries: Seq<Json>) -> Seq<UserRecord> {
    kept(entries.map_values(|entry: Json| user_of(entry)))
}

/// The groups among the entries, in order; an entry that describes no usable
/// group is left out.
pub open spec fn usable_groups(entries: Seq<Json>) -> Seq<GroupRecord> {
    kept(entries.map_values(|entry: Json| group_of(entry)))
}

/// Why a query that must name exactly one entry fails, given how many it
/// named: more than one are too many, none is not found.
pub open spec fn cardinality_failure(matches: nat) -> Option<GraphError> {
    if matches > 1 {
        Some(GraphError::TooManyResults)
    } else if matches < 1 {
        Some(GraphError::NotFound)
    } else {
        None
    }
}

/// The members that a parsed membership listing names.
pub open spec fn listed_members(parsed: Option<Json>) -> Result<Seq<UserRecord>, GraphError> {
    match parsed {
        None => Err(GraphError::BadJSONResponse),
        Some(doc) => match member(doc, "value"@) {
            Json::List(entries) => Ok(usable_users(entries)),
            _ => Err(GraphError::BadJSONResponse),
        },
    }
}

/// The groups that one parsed page of a user's groups names. A page without
/// a list says that the user is unknown.
pub open spec fn listed_groups(parsed: Option<Json>) -> Result<Seq<GroupRecord>, GraphError> {
    match parsed {
        None => Err(GraphError::BadJSONResponse),
        Some(doc) => match member(doc, "value"@) {
            Json::Null => Err(GraphError::NotFound),
            Json::List(entries) => Ok(usable_groups(entries)),
            _ => Err(GraphError::BadJSONResponse),
        },
    }
}

/// The continuation that a parsed page carries, if any.
pub open spec fn next_link(parsed: Option<Json>) -> Result<Option<Seq<char>>, GraphError> {
    match parsed {
        None => Err(GraphError::BadJSONResponse),
        Some(doc) => match member(doc, "odata.nextLink"@) {
            Json::Null => Ok(None),
            Json::Text(link) => Ok(Some(link)),
            _ => Err(GraphError::BadJSONResponse),
        },
    }
}

/// The user that a parsed answer describes.
pub open spec fn described_user(parsed: Option<Json>) -> Result<UserRecord, GraphError> {
    match parsed {
        None => Err(GraphError::BadJSONResponse),
        Some(doc) => user_of(doc),
    }
}

/// The one user that a parsed answer to a filter query names.
pub open spec fn single_user(parsed: Option<Json>) -> Result<UserRecord, GraphError> {
    match parsed {
        None => Err(GraphError::BadJSONResponse),
        Some(doc) => match member(doc, "value"@) {
            Json::List(entries) => match cardinality_failure(entries.len()) {
                Some(e) => Err(e),
                None => user_of(entries[0]),
            },
            _ => Err(GraphError::BadJSONResponse),
        },
    }
}

/// The one group that a parsed answer to a filter query names.
pub open spec fn single_group(parsed: Option<Json>) -> Result<GroupRecord, GraphError> {
    match parsed {
        None => Err(GraphError::BadJSONResponse),
        Some(doc) => match member(doc, "value"@) {
            Json::List(entries) => match cardinality_failure(entries.len()) {
                Some(e) => Err(e),
                None => group_of(entries[0]),
            },
            _ => Err(GraphError::BadJSONResponse),
        },
    }
}

/// What becomes of a fetched text: a failure to fetch stays as it is, a text
/// is read by `read`.
pub open spec fn fetched_then<T>(
    fetched: Result<Seq<char>, GraphError>,
    read: spec_fn(Option<Json>) -> Result<T, GraphError>,
) -> Result<T, GraphError> {
    match fetched {
        Ok(text) => read(json_parse(text)),
        Err(e) => Err(e),
    }
}

impl AadConfig {
    /// The address that lists the members of a group that was found; the
    /// members of a group that was not found are not asked for.
    pub fn members_query(&self, group: &GraphInfoResult<GroupInfo>) -> (r: Option<String>)
        ensures
            match outcome(*group) {
                Ok(g) => r is Some && r->0@ == group_members_url(self.tenant@, g.object_id),
                Err(_) => r is None,
            },
    {
        match group {
            Ok(found) => Some(self.group_members_url(found.object_id().as_str())),
            Err(_) => None,
        }
    }

    /// The request that obtains a token for this client.
    pub fn token_request(&self) -> (r: TokenRequest)
        ensures
            r.url@ == token_url(self.tenant@),
            r.body@ == form_urlencoded(token_form(self.client_id@, self.client_secret@)),
    {
        let mut pairs: Vec<(String, String)> = Vec::new();
        pairs.push((String::from_str("resource"), String::from_str("https://graph.windows.net/")));
        pairs.push((String::from_str("grant_type"), String::from_str("client_credentials")));
        pairs.push((String::from_str("client_id"), self.client_id.clone()));
        pairs.push((String::from_str("client_secret"), self.client_secret.clone()));
        assert(pairs.deep_view() =~= token_form(self.client_id@, self.client_secret@));
        TokenRequest { url: self.token_url(), body: form_urlencode(&pairs) }
    }
}

impl HttpResponse {
    /// The text of the answer, unless its status reports a failure.
    pub fn text(self) -> (r: GraphInfoResult<String>)
        ensures
            outcome(r) == response_text(self.status, self.body@),
    {
        if self.status != HTTP_OK {
            return Err(
                GraphInfoRetrievalError::BadHTTPResponse { status: self.status, data: self.body },
            );
        }
        Ok(self.body)
    }
}

/// What authentication comes to: the token in the answer of the token
/// endpoint, unless the request failed, the answer reports a failure, or it
/// holds no token.
pub open spec fn granted_token(answer: Result<(u16, Seq<char>), GraphError>) -> Result<
    Seq<char>,
    GraphError,
> {
    match answer {
        Err(e) => Err(e),
        Ok((status, body)) => match response_text(status, body) {
            Err(e) => Err(e),
            Ok(text) => token_of(text, json_parse(text)),
        },
    }
}

impl DeepView for HttpResponse {
    type V = (u16, Seq<char>);

    open spec fn deep_view(&self) -> (u16, Seq<char>) {
        (self.status, self.body@)
    }
}

/// Obtains the token from what the token request came to.
pub fn authenticate(answer: GraphInfoResult<HttpResponse>) -> (r: GraphInfoResult<String>)
    ensures
        outcome(r) == granted_token(outcome(answer)),
{
    let response = match answer {
        Ok(response) => response,
        Err(e) => {
            return Err(e);
        },
    };
    match response.text() {
        Ok(token_json) => extract_token(token_json.as_str()),
        Err(e) => Err(e),
    }
}

/// Reads the access token from the answer of the token endpoint.
pub fn extract_token(json: &str) -> (r: GraphInfoResult<String>)
    ensures
        outcome(r) == token_of(json@, json_parse(json@)),
{
    match parse_json(json) {
        Ok(doc) => match json_member(&doc, "access_token").as_str() {
            Some(token) => Ok(token.to_owned()),
            None => Err(GraphInfoRetrievalError::NoAccessToken { response: json.to_owned() }),
        },
        Err(_) => Err(GraphInfoRetrievalError::BadJSONResponse),
    }
}

/// Reads a user from a directory entry.
pub fn extract_user_info(userinfo: &Value) -> (r: GraphInfoResult<UserInfo>)
    ensures
        outcome(r) == user_of(json_of(*userinfo)),
{
    UserInfo::from_directory(
        json_member(userinfo, "userPrincipalName").as_str(),
        json_member(userinfo, "displayName").as_str(),
        json_member(userinfo, "onPremisesSecurityIdentifier").as_str(),
    )
}

/// Reads a group from a directory entry.
pub fn extract_group_info(group: &Value) -> (r: GraphInfoResult<GroupInfo>)
    ensures
        outcome(r) == group_of(json_of(*group)),
{
    GroupInfo::from_directory(
        json_member(group, "displayName").as_str(),
        json_member(group, "objectId").as_str(),
        json_member(group, "onPremisesSecurityIdentifier").as_str(),
    )
}

/// Keeps the values of the results, in order, and passes over the failures.
pub fn keep_usable<T: DeepView>(results: Vec<GraphInfoResult<T>>) -> (r: Vec<T>)
    ensures
        r.deep_view() == kept(outcomes(results@)),
{
    let ghost all = outcomes(results@);
    let mut values: Vec<T> = Vec::new();
    assert(values.deep_view() =~= kept(all.take(0)));
    for result in it: results.into_iter()
        invariant
            all == outcomes(it.seq()),
            values.deep_view() == kept(all.take(it.index() as int)),
    {
        assert(all.take(it.index() + 1).drop_last() =~= all.take(it.index() as int));
        let ghost before = values.deep_view();
        match result {
            Ok(value) => {
                values.push(value);
                assert(values.deep_view() =~= before.push(value.deep_view()));
            },
            Err(_) => {},
        }
    }
    assert(all.take(all.len() as int) =~= all);
    values
}

/// Says why a query that must name exactly one entry fails, given how many
/// it named.
pub fn cardinality(matches: usize) -> (r: Option<GraphInfoRetrievalError>)
    ensures
        r.deep_view() == cardinality_failure(matches as nat),
        matches == 0 ==> r == Some(GraphInfoRetrievalError::NotFound),
        matches > 1 ==> r == Some(GraphInfoRetrievalError::TooManyResults),
        matches == 1 ==> r is None,
{
    if matches > 1 {
        return Some(GraphInfoRetrievalError::TooManyResults);
    }
    if matches < 1 {
        return Some(GraphInfoRetrievalError::NotFound);
    }
    None
}

/// Reads each entry of a listing as a user.
fn extract_users(entries: &Vec<Value>) -> (r: Vec<GraphInfoResult<UserInfo>>)
    ensures
        outcomes(r@) == jsons_of(entries@).map_values(|entry: Json| user_of(entry)),
{
    let mut results: Vec<GraphInfoResult<UserInfo>> = Vec::new();
    let mut i: usize = 0;
    while i < entries.len()
        invariant
            i <= entries.len(),
            outcomes(results@) == jsons_of(entries@).take(i as int).map_values(
                |entry: Json| user_of(entry),
            ),
        decreases entries.len() - i,
    {
        let ghost before = outcomes(results@);
        let result = extract_user_info(&entries[i]);
        let ghost read = outcome(result);
        results.push(result);
        assert(outcomes(results@) =~= before.push(read));
        assert(jsons_of(entries@).take(i + 1).map_values(|entry: Json| user_of(entry))
            =~= jsons_of(entries@).take(i as int).map_values(|entry: Json| user_of(entry)).push(
            read,
        ));
        i = i + 1;
    }
    assert(jsons_of(entries@).take(i as int) =~= jsons_of(entries@));
    results
}

/// Reads each entry of a listing as a group.
fn extract_groups(entries: &Vec<Value>) -> (r: Vec<GraphInfoResult<GroupInfo>>)
    ensures
        outcomes(r@) == jsons_of(entries@).map_values(|entry: Json| group_of(entry)),
{
    let mut results: Vec<GraphInfoResult<GroupInfo>> = Vec::new();
    let mut i: usize = 0;
    while i < entries.len()
        invariant
            i <= entries.len(),
            outcomes(results@) == jsons_of(entries@).take(i as int).map_values(
                |entry: Json| group_of(entry),
            ),
        decreases entries.len() - i,
    {
        let ghost before = outcomes(results@);
        let result = extract_group_info(&entries[i]);
        let ghost read = outcome(result);
        results.push(result);
        assert(outcomes(results@) =~= before.push(read));
        assert(jsons_of(entries@).take(i + 1).map_values(|entry: Json| group_of(entry))
            =~= jsons_of(entries@).take(i as int).map_values(|entry: Json| group_of(entry)).push(
            read,
        ));
        i = i + 1;
    }
    assert(jsons_of(entries@).take(i as int) =~= jsons_of(entries@));
    results
}

/// Reads the users of a membership listing. An entry that does not describe
/// a usable user is passed over.
pub fn extract_group_members(json: &str) -> (r: GraphInfoResult<Vec<UserInfo>>)
    ensures
        outcome(r) == listed_members(json_parse(json@)),
{
    let doc = match parse_json(json) {
        Ok(doc) => doc,
        Err(_) => {
            return Err(GraphInfoRetrievalError::BadJSONResponse);
        },
    };
    match json_member(&doc, "value").as_array() {
        Some(entries) => Ok(keep_usable(extract_users(entries))),
        None => Err(GraphInfoRetrievalError::BadJSONResponse),
    }
}

/// Reads the groups of one page of a user's groups. An entry that does not
/// describe a usable group is passed over.
pub fn extract_user_groups(json: &str) -> (r: GraphInfoResult<Vec<GroupInfo>>)
    ensures
        outcome(r) == listed_groups(json_parse(json@)),
{
    let doc = match parse_json(json) {
        Ok(doc) => doc,
        Err(_) => {
            return Err(GraphInfoRetrievalError::BadJSONResponse);
        },
    };
    let values = json_member(&doc, "value");
    if values.is_null() {
        return Err(GraphInfoRetrievalError::NotFound);
    }
    match values.as_array() {
        Some(entries) => Ok(keep_usable(extract_groups(entries))),
        None => Err(GraphInfoRetrievalError::BadJSONResponse),
    }
}

/// Reads the continuation from a page, if it carries one.
pub fn has_another_page(json: &str) -> (r: GraphInfoResult<Option<String>>)
    ensures
        outcome(r) == next_link(json_parse(json@)),
{
    let doc = match parse_json(json) {
        Ok(doc) => doc,
        Err(_) => {
            return Err(GraphInfoRetrievalError::BadJSONResponse);
        },
    };
    let link = json_member(&doc, "odata.nextLink");
    if link.is_null() {
        return Ok(None);
    }
    match link.as_str() {
        Some(link) => Ok(Some(link.to_owned())),
        None => Err(GraphInfoRetrievalError::BadJSONResponse),
    }
}

/// Reads the one group of an answer to a filter query.
fn extract_single_group(json: &str) -> (r: GraphInfoResult<GroupInfo>)
    ensures
        outcome(r) == single_group(json_parse(json@)),
{
    let doc = match parse_json(json) {
        Ok(doc) => doc,
        Err(_) => {
            return Err(GraphInfoRetrievalError::BadJSONResponse);
        },
    };
    let entries = match json_member(&doc, "value").as_array() {
        Some(entries) => entries,
        None => {
            return Err(GraphInfoRetrievalError::BadJSONResponse);
        },
    };
    match cardinality(entries.len()) {
        Some(e) => Err(e),
        None => extract_group_info(&entries[0]),
    }
}

/// The user that the answer fetched from [`user_url`] describes.
pub fn get_user_info(fetched: GraphInfoResult<String>) -> (r: GraphInfoResult<UserInfo>)
    ensures
        outcome(r) == fetched_then(outcome(fetched), |parsed: Option<Json>| described_user(parsed)),
{
    let info_json = match fetched {
        Ok(text) => text,
        Err(e) => {
            return Err(e);
        },
    };
    match parse_json(info_json.as_str()) {
        Ok(doc) => extract_user_info(&doc),
        Err(_) => Err(GraphInfoRetrievalError::BadJSONResponse),
    }
}

/// The user that the answer fetched from [`user_by_sid_url`] names: the
/// only one that matched.
pub fn get_user_info_by_sid(fetched: GraphInfoResult<String>) -> (r: GraphInfoResult<UserInfo>)
    ensures
        outcome(r) == fetched_then(outcome(fetched), |parsed: Option<Json>| single_user(parsed)),
{
    let info_json = match fetched {
        Ok(text) => text,
        Err(e) => {
            return Err(e);
        },
    };
    let doc = match parse_json(info_json.as_str()) {
        Ok(doc) => doc,
        Err(_) => {
            return Err(GraphInfoRetrievalError::BadJSONResponse);
        },
    };
    let entries = match json_member(&doc, "value").as_array() {
        Some(entries) => entries,
        None => {
            return Err(GraphInfoRetrievalError::BadJSONResponse);
        },
    };
    match cardinality(entries.len()) {
        Some(e) => Err(e),
        None => extract_user_info(&entries[0]),
    }
}

/// The group that the answer fetched from [`group_url`] names: the only one
/// that matched.
pub fn get_group_info(fetched: GraphInfoResult<String>) -> (r: GraphInfoResult<GroupInfo>)
    ensures
        outcome(r) == fetched_then(outcome(fetched), |parsed: Option<Json>| single_group(parsed)),
{
    match fetched {
        Ok(group_info_json) => extract_single_group(group_info_json.as_str()),
        Err(e) => Err(e),
    }
}

/// The group that the answer fetched from [`group_by_sid_url`] names: the
/// only one that matched.
pub fn get_group_info_by_sid(fetched: GraphInfoResult<String>) -> (r: GraphInfoResult<GroupInfo>)
    ensures
        outcome(r) == fetched_then(outcome(fetched), |parsed: Option<Json>| single_group(parsed)),
{
    match fetched {
        Ok(info_json) => extract_single_group(info_json.as_str()),
        Err(e) => Err(e),
    }
}

/// The members that the answer fetched from [`group_members_url`] lists.
pub fn get_group_members(fetched: GraphInfoResult<String>) -> (r: GraphInfoResult<Vec<UserInfo>>)
    ensures
        outcome(r) == fetched_then(outcome(fetched), |parsed: Option<Json>| listed_members(parsed)),
{
    match fetched {
        Ok(group_members_json) => extract_group_members(group_members_json.as_str()),
        Err(e) => Err(e),
    }
}

/// How often a walk through a user's groups asks again for a page whose
/// continuation the service reports as expired.
pub const PAGE_RETRIES: u32 = 5;

/// The text by which the service reports an expired continuation.
pub open spec fn expired_page_marker() -> Seq<char> {
    "Directory_ExpiredPageToken"@
}

/// Mathematical model of a [`GroupWalk`].
pub struct WalkState {
    pub tenant: Seq<char>,
    pub url: Seq<char>,
    pub groups: Seq<GroupRecord>,
    pub retries: u32,
}

/// A walk through the pages that list a user's groups: the page to fetch
/// next, the groups gathered so far, and how often a page may still be asked
/// for again.
#[derive(Debug, Clone, PartialEq, Eq)]
pub struct GroupWalk {
    tenant: String,
    url: String,
    groups: Vec<GroupInfo>,
    retries: u32,
}

impl View for GroupWalk {
    type V = WalkState;

    closed spec fn view(&self) -> WalkState {
        WalkState {
            tenant: self.tenant@,
            url: self.url@,
            groups: self.groups.deep_view(),
            retries: self.retries,
        }
    }
}

/// How a walk goes on after a fetch.
#[derive(Debug, Clone, PartialEq, Eq)]
pub enum WalkStep {
    /// The page at the walk's address is to be fetched.
    Fetch(GroupWalk),
    /// The walk is over: these are the user's groups, in the order of the pages.
    Done(Vec<GroupInfo>),
    /// The walk is over without a result.
    Failed(GraphInfoRetrievalError),
}

/// Mathematical model of a [`WalkStep`].
pub enum Step {
    Fetch(WalkState),
    Done(Seq<GroupRecord>),
    Failed(GraphError),
}

impl View for WalkStep {
    type V = Step;

    open spec fn view(&self) -> Step {
        match *self {
            WalkStep::Fetch(walk) => Step::Fetch(walk@),
            WalkStep::Done(groups) => Step::Done(groups.deep_view()),
            WalkStep::Failed(e) => Step::Failed(e@),
        }
    }
}

/// Whether a failed fetch reports an expired continuation.
pub open spec fn reports_expired_page(e: GraphError) -> bool {
    e matches GraphError::BadHTTPResponse { data, .. } && occurs_in(data, expired_page_marker())
}

/// What a walk in `state` does when the fetch of its page failed with `e`:
/// an expired continuation has the same page fetched again while retries are
/// left, every other failure ends the walk.
pub open spec fn failure_step(state: WalkState, e: GraphError) -> Step {
    if reports_expired_page(e) && state.retries > 0 {
        Step::Fetch(WalkState { retries: (state.retries - 1) as u32, ..state })
    } else {
        Step::Failed(e)
    }
}

/// What a walk in `state` does with a page that lists `batch` and carries
/// the continuation `link`: the groups go behind those gathered so far, and
/// the continuation, if there is one, names the next page.
pub open spec fn page_step(state: WalkState, batch: Seq<GroupRecord>, link: Option<Seq<char>>)
    -> Step {
    match link {
        Some(link) => Step::Fetch(
            WalkState {
                url: next_page_url(state.tenant, link),
                groups: state.groups + batch,
                ..state
            },
        ),
        None => Step::Done(state.groups + batch),
    }
}

/// What a walk in `state` does when the fetch of its page ends in `fetched`.
/// A page that cannot be read ends the walk.
pub open spec fn next_step(state: WalkState, fetched: Result<Seq<char>, GraphError>) -> Step {
    match fetched {
        Err(e) => failure_step(state, e),
        Ok(text) => match listed_groups(json_parse(text)) {
            Err(e) => Step::Failed(e),
            Ok(batch) => match next_link(json_parse(text)) {
                Err(e) => Step::Failed(e),
                Ok(link) => page_step(state, batch, link),
            },
        },
    }
}

/// What a walk that begins in `state` comes to when its fetches end as
/// `answers` say, one after the other; `None` while the walk is not over.
pub open spec fn walk_result(state: WalkState, answers: Seq<Result<Seq<char>, GraphError>>)
    -> Option<Result<Seq<GroupRecord>, GraphError>>
    decreases answers.len(),
{
    if answers.len() == 0 {
        None
    } else {
        match next_step(state, answers[0]) {
            Step::Fetch(next) => walk_result(next, answers.skip(1)),
            Step::Done(groups) => Some(Ok(groups)),
            Step::Failed(e) => Some(Err(e)),
        }
    }
}

/// The groups that a row of pages lists, page after page.
pub open spec fn gathered(pages: Seq<Seq<char>>) -> Seq<GroupRecord>
    decreases pages.len(),
{
    if pages.len() == 0 {
        Seq::empty()
    } else {
        match listed_groups(json_parse(pages[0])) {
            Ok(batch) => batch + gathered(pages.skip(1)),
            Err(_) => gathered(pages.skip(1)),
        }
    }
}

/// The fetches that hand the walk these pages.
pub open spec fn fetched_pages(pages: Seq<Seq<char>>) -> Seq<Result<Seq<char>, GraphError>> {
    pages.map_values(|page: Seq<char>| Ok::<Seq<char>, GraphError>(page))
}

/// A walk that is handed a row of pages, each but the last with a
/// continuation, ends with the last page, and returns what it had gathered
/// before with the groups of all pages behind it, in the order of the pages.
pub proof fn lemma_walk_gathers_pages_in_order(state: WalkState, pages: Seq<Seq<char>>)
    requires
        pages.len() > 0,
        forall|i: int| 0 <= i < pages.len() ==> listed_groups(json_parse(#[trigger] pages[i])) is Ok,
        forall|i: int|
            0 <= i < pages.len() - 1 ==> next_link(json_parse(#[trigger] pages[i])) matches Ok(
                Some(_),
            ),
        next_link(json_parse(pages.last())) == Ok::<_, GraphError>(None::<Seq<char>>),
    ensures
        walk_result(state, fetched_pages(pages)) == Some(
            Ok::<_, GraphError>(state.groups + gathered(pages)),
        ),
    decreases pages.len(),
{
    let answers = fetched_pages(pages);
    let batch = listed_groups(json_parse(pages[0]))->Ok_0;
    assert(answers[0] == Ok::<Seq<char>, GraphError>(pages[0]));
    if pages.len() == 1 {
        assert(pages.last() == pages[0]);
        assert(gathered(pages.skip(1)) =~= Seq::<GroupRecord>::empty());
        assert(state.groups + gathered(pages) =~= state.groups + batch);
    } else {
        let rest = pages.skip(1);
        let next = next_step(state, answers[0])->Fetch_0;
        assert(rest.last() == pages.last());
        assert forall|i: int| 0 <= i < rest.len() implies listed_groups(
            json_parse(#[trigger] rest[i]),
        ) is Ok by {
            assert(rest[i] == pages[i + 1]);
        }
        assert forall|i: int| 0 <= i < rest.len() - 1 implies next_link(
            json_parse(#[trigger] rest[i]),
        ) matches Ok(Some(_)) by {
            assert(rest[i] == pages[i + 1]);
        }
        lemma_walk_gathers_pages_in_order(next, rest);
        assert(answers.skip(1) =~= fetched_pages(rest));
        assert(next.groups + gathered(rest) =~= state.groups + gathered(pages));
    }
}

/// A walk whose fetches all report an expired continuation asks again as
/// long as it has retries left, and fails with the first such answer that
/// finds none left.
pub proof fn lemma_walk_gives_up_when_retries_are_spent(
    state: WalkState,
    answers: Seq<Result<Seq<char>, GraphError>>,
)
    requires
        forall|i: int|
            0 <= i < answers.len() ==> (#[trigger] answers[i]) is Err && reports_expired_page(
                answers[i]->Err_0,
            ),
    ensures
        answers.len() <= state.retries ==> walk_result(state, answers) is None,
        answers.len() > state.retries ==> walk_result(state, answers) == Some(
            Err::<Seq<GroupRecord>, _>(answers[state.retries as int]->Err_0),
        ),
    decreases answers.len(),
{
    if answers.len() > 0 && state.retries > 0 {
        let rest = answers.skip(1);
        let next = WalkState { retries: (state.retries - 1) as u32, ..state };
        assert forall|i: int| 0 <= i < rest.len() implies (#[trigger] rest[i]) is Err
            && reports_expired_page(rest[i]->Err_0) by {
            assert(rest[i] == answers[i + 1]);
        }
        lemma_walk_gives_up_when_retries_are_spent(next, rest);
        if answers.len() > state.retries {
            assert(rest[next.retries as int] == answers[state.retries as int]);
        }
    }
}

impl GroupWalk {
    /// The walk through the groups of `username`, before its first fetch.
    pub fn new(config: &AadConfig, username: &str) -> (walk: GroupWalk)
        ensures
            walk@ == (WalkState {
                tenant: config.tenant@,
                url: user_groups_url(config.tenant@, username@),
                groups: Seq::empty(),
                retries: PAGE_RETRIES,
            }),
    {
        let walk = GroupWalk {
            tenant: config.tenant.clone(),
            url: config.user_groups_url(username),
            groups: Vec::new(),
            retries: PAGE_RETRIES,
        };
        assert(walk.groups.deep_view() =~= Seq::<GroupRecord>::empty());
        walk
    }

    /// The address of the page to fetch.
    pub fn url(&self) -> (r: &String)
        ensures
            r@ == self@.url,
    {
        &self.url
    }

    /// How often a page may still be asked for again.
    pub fn retries(&self) -> (r: u32)
        ensures
            r == self@.retries,
    {
        self.retries
    }

    /// The groups gathered so far.
    pub fn groups(&self) -> (r: &Vec<GroupInfo>)
        ensures
            r.deep_view() == self@.groups,
    {
        &self.groups
    }
}

impl GroupWalk {
    /// Goes on after a fetch that failed with `e`.
    pub fn after_failure(self, e: GraphInfoRetrievalError) -> (r: WalkStep)
        ensures
            r@ == failure_step(self@, e@),
    {
        let GroupWalk { tenant, url, groups, retries } = self;
        match e {
            GraphInfoRetrievalError::BadHTTPResponse { status, data } => {
                if contains(data.as_str(), "Directory_ExpiredPageToken") && retries > 0 {
                    return WalkStep::Fetch(GroupWalk { tenant, url, groups, retries: retries - 1 });
                }
                WalkStep::Failed(GraphInfoRetrievalError::BadHTTPResponse { status, data })
            },
            _ => WalkStep::Failed(e),
        }
    }

    /// Goes on after a page that lists `batch` and carries the continuation
    /// `link`.
    pub fn after_page(self, batch: Vec<GroupInfo>, link: Option<String>) -> (r: WalkStep)
        ensures
            r@ == page_step(self@, batch.deep_view(), link.deep_view()),
    {
        let GroupWalk { tenant, url, groups, retries } = self;
        let mut user_groups = groups;
        let mut group_batch = batch;
        let ghost gathered = user_groups.deep_view();
        user_groups.append(&mut group_batch);
        assert(user_groups.deep_view() =~= gathered + batch.deep_view());
        match link {
            Some(link) => {
                let next = join(
                    "https://graph.windows.net/",
                    tenant.as_str(),
                    "/",
                    link.as_str(),
                    "&api-version=1.6",
                );
                WalkStep::Fetch(GroupWalk { tenant, url: next, groups: user_groups, retries })
            },
            None => WalkStep::Done(user_groups),
        }
    }
}

/// Takes a walk through a user's groups one step further, given what the
/// fetch of its page came to.
pub fn get_user_groups(walk: GroupWalk, fetched: GraphInfoResult<String>) -> (r: WalkStep)
    ensures
        r@ == next_step(walk@, outcome(fetched)),
{
    let user_groups_json = match fetched {
        Ok(text) => text,
        Err(e) => {
            return walk.after_failure(e);
        },
    };
    let group_batch = match extract_user_groups(user_groups_json.as_str()) {
        Ok(batch) => batch,
        Err(e) => {
            return WalkStep::Failed(e);
        },
    };
    match has_another_page(user_groups_json.as_str()) {
        Ok(link) => walk.after_page(group_batch, link),
        Err(e) => WalkStep::Failed(e),
    }
}

} // verus!
