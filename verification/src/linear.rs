//! Read-only Linear context: the one query that is sent, and what its answer
//! shows.
use vstd::prelude::*;
use vstd::string::*;
use vstd::utf8::{
    decode_utf8, encode_utf8, encode_utf8_decode_utf8, encode_utf8_valid_utf8, valid_utf8,
};

use crate::json::{is_plain_entry, plain_entry_text, plain_text, print_json, Json, JsonView};
use crate::text::{
    ascii_lowercase_text, concatenated, contains_in_ascii_lowercase, contains_text, decimal,
    decimal_text, decimal_text_is_digits, decimal_text_is_injective, join, joined,
    joining_in_two_parts, occurs_at, searching_ignores_case, stands_in_any_case,
    what_stands_between_is_equal,
};

verus! {

/// Keychain record URL for the Linear personal API key.
pub const LINEAR_CREDENTIAL_URL: &'static str = "https://api.linear.app";

/// Linear GraphQL endpoint. Requests go nowhere else.
pub const LINEAR_GRAPHQL_URL: &'static str = "https://api.linear.app/graphql";

/// Environment variable consulted before the keychain.
pub const LINEAR_API_KEY_ENV: &'static str = "LINEAR_API_KEY";

/// Default number of teams, projects and issues to request.
pub const LINEAR_CONTEXT_DEFAULT_LIMIT: usize = 10;

// ---------------------------------------------------------------------------
// The snapshot
// ---------------------------------------------------------------------------

/// A team of the viewer.
#[derive(Clone, Debug, PartialEq, Eq)]
pub struct LinearTeam {
    pub key: String,
    pub name: String,
}

/// An issue of the viewer.
#[derive(Clone, Debug, PartialEq, Eq)]
pub struct LinearIssue {
    pub identifier: String,
    pub title: String,
}

/// A read-only snapshot of the viewer's Linear context.
///
/// Where `authenticated` is false the snapshot is empty, and `status` tells why.
#[derive(Clone, Debug, PartialEq, Eq)]
pub struct LinearContext {
    pub authenticated: bool,
    pub status: Option<String>,
    pub viewer: Option<String>,
    pub teams: Vec<LinearTeam>,
    pub projects: Vec<String>,
    pub issues: Vec<LinearIssue>,
}

/// What a [`LinearContext`] stands for.
#[verifier::ext_equal]
pub struct LinearContextModel {
    pub authenticated: bool,
    pub status: Option<Seq<char>>,
    pub viewer: Option<Seq<char>>,
    /// Key and name of each team.
    pub teams: Seq<(Seq<char>, Seq<char>)>,
    pub projects: Seq<Seq<char>>,
    /// Identifier and title of each issue.
    pub issues: Seq<(Seq<char>, Seq<char>)>,
}

/// Teams as what they stand for.
pub open spec fn team_views(teams: Seq<LinearTeam>) -> Seq<(Seq<char>, Seq<char>)> {
    Seq::new(teams.len(), |i: int| (teams[i].key@, teams[i].name@))
}

/// Issues as what they stand for.
pub open spec fn issue_views(issues: Seq<LinearIssue>) -> Seq<(Seq<char>, Seq<char>)> {
    Seq::new(issues.len(), |i: int| (issues[i].identifier@, issues[i].title@))
}

impl View for LinearContext {
    type V = LinearContextModel;

    open spec fn view(&self) -> LinearContextModel {
        LinearContextModel {
            authenticated: self.authenticated,
            status: self.status.deep_view(),
            viewer: self.viewer.deep_view(),
            teams: team_views(self.teams@),
            projects: self.projects.deep_view(),
            issues: issue_views(self.issues@),
        }
    }
}

impl LinearContextModel {
    /// A snapshot with nothing in it.
    pub open spec fn empty(status: Option<Seq<char>>) -> LinearContextModel {
        LinearContextModel {
            authenticated: false,
            status,
            viewer: None,
            teams: Seq::empty(),
            projects: Seq::empty(),
            issues: Seq::empty(),
        }
    }

    /// The snapshot that tells why there is nothing to show.
    pub open spec fn told(message: Seq<char>) -> LinearContextModel {
        Self::empty(Some(message))
    }

    /// The snapshot without a connection.
    pub open spec fn disconnected() -> LinearContextModel {
        Self::told("Linear not connected"@)
    }

    /// The counts, and the viewer before them where known.
    pub open spec fn summary_parts(self) -> Seq<Seq<char>> {
        let counts = seq![
            counted(self.teams.len(), "team"@),
            counted(self.projects.len(), "project"@),
            counted(self.issues.len(), "issue"@),
        ];
        match self.viewer {
            Some(viewer) => seq![viewer] + counts,
            None => counts,
        }
    }

    /// The line for the panel's header.
    pub open spec fn summary(self) -> Seq<char> {
        if self.authenticated {
            joined(self.summary_parts(), " · "@)
        } else {
            match self.status {
                Some(status) => status,
                None => "Linear not connected"@,
            }
        }
    }
}

/// A count with its noun, in the plural unless it is one.
pub open spec fn counted(count: nat, noun: Seq<char>) -> Seq<char> {
    if count == 1 {
        "1 "@ + noun
    } else {
        decimal_text(count) + " "@ + noun + "s"@
    }
}

/// A count with its noun.
pub fn count_label(count: usize, noun: &str) -> (label: String)
    ensures
        label@ == counted(count as nat, noun@),
{
    if count == 1 {
        concatenated("1 ", noun)
    } else {
        let mut label = decimal(count as u64);
        label.append(" ");
        label.append(noun);
        label.append("s");
        label
    }
}

impl Default for LinearContext {
    fn default() -> (context: LinearContext)
        ensures
            context@ == LinearContextModel::empty(None),
    {
        let context = LinearContext {
            authenticated: false,
            status: None,
            viewer: None,
            teams: Vec::new(),
            projects: Vec::new(),
            issues: Vec::new(),
        };
        assert(context@ =~= LinearContextModel::empty(None));
        context
    }
}

impl LinearContext {
    /// The snapshot without a connection.
    pub fn unauthenticated() -> (context: LinearContext)
        ensures
            context@ == LinearContextModel::disconnected(),
    {
        Self::error("Linear not connected")
    }

    /// The snapshot that tells why there is nothing to show.
    pub fn error(message: &str) -> (context: LinearContext)
        ensures
            context@ == LinearContextModel::told(message@),
    {
        let context = LinearContext {
            authenticated: false,
            status: Some(message.to_owned()),
            viewer: None,
            teams: Vec::new(),
            projects: Vec::new(),
            issues: Vec::new(),
        };
        assert(context@ =~= LinearContextModel::told(message@));
        context
    }

    /// One-line label for the panel header: the viewer and the counts where
    /// authenticated, else the status.
    pub fn summary_label(&self) -> (label: String)
        ensures
            label@ == self@.summary(),
    {
        if !self.authenticated {
            return match &self.status {
                Some(status) => status.clone(),
                None => "Linear not connected".to_owned(),
            };
        }
        let mut parts: Vec<String> = Vec::new();
        if let Some(viewer) = &self.viewer {
            parts.push(viewer.clone());
        }
        parts.push(count_label(self.teams.len(), "team"));
        parts.push(count_label(self.projects.len(), "project"));
        parts.push(count_label(self.issues.len(), "issue"));
        assert(parts.deep_view() =~= self@.summary_parts());
        join(&parts, " · ")
    }
}

// ---------------------------------------------------------------------------
// The query
// ---------------------------------------------------------------------------

/// The one GraphQL document that is sent.
pub open spec fn query_text(limit: nat) -> Seq<char> {
    "query { viewer { name } teams(first: "@ + decimal_text(limit)
        + ") { nodes { key name } } projects(first: "@ + decimal_text(limit)
        + ") { nodes { name } } issues(first: "@ + decimal_text(limit)
        + ") { nodes { identifier title } } }"@
}

/// Builds the one GraphQL document that is sent.
pub fn build_linear_query(limit: usize) -> (query: String)
    ensures
        query@ == query_text(limit as nat),
{
    let count = decimal(limit as u64);
    let mut query = concatenated("query { viewer { name } teams(first: ", count.as_str());
    query.append(") { nodes { key name } } projects(first: ");
    query.append(count.as_str());
    query.append(") { nodes { name } } issues(first: ");
    query.append(count.as_str());
    query.append(") { nodes { identifier title } } }");
    query
}

/// A text that does not start with a `u`, and holds none behind an `m`.
pub open spec fn no_u_behind_m(text: Seq<char>) -> bool {
    forall|i: int|
        0 <= i < text.len() && #[trigger] text[i] == 'u' ==> i > 0 && text[i - 1] != 'm'
}

proof fn joining_puts_no_u_behind_m(left: Seq<char>, right: Seq<char>)
    requires
        no_u_behind_m(left),
        no_u_behind_m(right),
    ensures
        no_u_behind_m(left + right),
{
    let text = left + right;
    assert forall|i: int| 0 <= i < text.len() && #[trigger] text[i] == 'u' implies i > 0 && text[i
        - 1] != 'm' by {
        if i < left.len() {
            assert(left[i] == 'u');
        } else {
            assert(right[i - left.len()] == 'u');
        }
    }
}

proof fn query_holds_no_u_behind_m(limit: nat)
    ensures
        no_u_behind_m(query_text(limit)),
{
    reveal_strlit("query { viewer { name } teams(first: ");
    reveal_strlit(") { nodes { key name } } projects(first: ");
    reveal_strlit(") { nodes { name } } issues(first: ");
    reveal_strlit(") { nodes { identifier title } } }");
    decimal_text_is_digits(limit);
    let digits = decimal_text(limit);
    assert(no_u_behind_m("query { viewer { name } teams(first: "@));
    assert(no_u_behind_m(") { nodes { key name } } projects(first: "@));
    assert(no_u_behind_m(") { nodes { name } } issues(first: "@));
    assert(no_u_behind_m(") { nodes { identifier title } } }"@));
    assert(no_u_behind_m(digits));
    let first = "query { viewer { name } teams(first: "@ + digits;
    let second = first + ") { nodes { key name } } projects(first: "@;
    let third = second + digits;
    let fourth = third + ") { nodes { name } } issues(first: "@;
    let fifth = fourth + digits;
    joining_puts_no_u_behind_m("query { viewer { name } teams(first: "@, digits);
    joining_puts_no_u_behind_m(first, ") { nodes { key name } } projects(first: "@);
    joining_puts_no_u_behind_m(second, digits);
    joining_puts_no_u_behind_m(third, ") { nodes { name } } issues(first: "@);
    joining_puts_no_u_behind_m(fourth, digits);
    joining_puts_no_u_behind_m(fifth, ") { nodes { identifier title } } }"@);
}

proof fn no_mutation_without_u_behind_m(text: Seq<char>)
    requires
        no_u_behind_m(text),
    ensures
        !contains_text(text, "mutation"@),
{
    reveal_strlit("mutation");
    assert forall|at: int| 0 <= at implies !#[trigger] occurs_at(text, "mutation"@, at) by {
        if occurs_at(text, "mutation"@, at) {
            assert(text[at] == "mutation"@[0]);
            assert(text[at + 1] == "mutation"@[1]);
        }
    }
}

/// The document is a query for every limit: it starts as one, and holds the word
/// for a mutation nowhere.
pub proof fn query_is_never_a_mutation(limit: nat)
    ensures
        query_text(limit).take(5) == "query"@,
        !contains_text(query_text(limit), "mutation"@),
{
    query_holds_no_u_behind_m(limit);
    no_mutation_without_u_behind_m(query_text(limit));
    reveal_strlit("query");
    reveal_strlit("query { viewer { name } teams(first: ");
    let text = query_text(limit);
    let start = "query { viewer { name } teams(first: "@;
    assert(forall|i: int| 0 <= i < 5 ==> #[trigger] text[i] == start[i]);
    assert(text.take(5) =~= "query"@);
}

proof fn query_is_plain(limit: nat)
    ensures
        plain_text(query_text(limit)),
        plain_text("query"@),
{
    reveal_strlit("query");
    reveal_strlit("query { viewer { name } teams(first: ");
    reveal_strlit(") { nodes { key name } } projects(first: ");
    reveal_strlit(") { nodes { name } } issues(first: ");
    reveal_strlit(") { nodes { identifier title } } }");
    decimal_text_is_digits(limit);
    let digits = decimal_text(limit);
    assert(plain_text("query { viewer { name } teams(first: "@));
    assert(plain_text(") { nodes { key name } } projects(first: "@));
    assert(plain_text(") { nodes { name } } issues(first: "@));
    assert(plain_text(") { nodes { identifier title } } }"@));
    assert(plain_text(digits));
    let first = "query { viewer { name } teams(first: "@ + digits;
    let second = first + ") { nodes { key name } } projects(first: "@;
    let third = second + digits;
    let fourth = third + ") { nodes { name } } issues(first: "@;
    let fifth = fourth + digits;
    joining_keeps_plain("query { viewer { name } teams(first: "@, digits);
    joining_keeps_plain(first, ") { nodes { key name } } projects(first: "@);
    joining_keeps_plain(second, digits);
    joining_keeps_plain(third, ") { nodes { name } } issues(first: "@);
    joining_keeps_plain(fourth, digits);
    joining_keeps_plain(fifth, ") { nodes { identifier title } } }"@);
}

proof fn joining_keeps_plain(left: Seq<char>, right: Seq<char>)
    requires
        plain_text(left),
        plain_text(right),
    ensures
        plain_text(left + right),
{
    let text = left + right;
    assert forall|i: int| 0 <= i < text.len() implies (#[trigger] text[i]) as u32 >= 0x20 && text[i]
        != '"' && text[i] != '\\' by {
        if i < left.len() {
            assert(text[i] == left[i]);
        } else {
            assert(text[i] == right[i - left.len()]);
        }
    }
}

/// The body of the request.
pub open spec fn body_text(limit: nat) -> Seq<char> {
    plain_entry_text("query"@, query_text(limit))
}

/// The body of the request: the query as the only field of an object.
pub fn request_body(limit: usize) -> (body: String)
    ensures
        body@ == body_text(limit as nat),
{
    let query = build_linear_query(limit);
    let mut fields: Vec<(String, Json)> = Vec::new();
    fields.push(("query".to_owned(), Json::string(query.as_str())));
    let json = Json::Object(fields);
    proof {
        query_is_plain(limit as nat);
        assert(json@->Object_0 =~= seq![("query"@, JsonView::Text(query@))]);
        assert(is_plain_entry(json@, "query"@, query@));
        let built = json@->Object_0;
        assert forall|i: int| 0 <= i < built.len() implies (
        #[trigger] built[i]).1.well_formed() by {
            assert(built[i].1 == JsonView::Text(query@));
        }
    }
    print_json(&json)
}

/// What goes over the wire is a query for every limit, and holds the word for a
/// mutation nowhere.
pub proof fn body_is_never_a_mutation(limit: nat)
    ensures
        contains_text(body_text(limit), "query"@),
        !contains_text(body_text(limit), "mutation"@),
{
    reveal_strlit("query");
    reveal_strlit("{\"");
    reveal_strlit("\":\"");
    reveal_strlit("\"}");
    query_holds_no_u_behind_m(limit);
    let first = "{\""@ + "query"@;
    let second = first + "\":\""@;
    let third = second + query_text(limit);
    joining_puts_no_u_behind_m("{\""@, "query"@);
    joining_puts_no_u_behind_m(first, "\":\""@);
    joining_puts_no_u_behind_m(second, query_text(limit));
    joining_puts_no_u_behind_m(third, "\"}"@);
    no_mutation_without_u_behind_m(body_text(limit));
    let body = body_text(limit);
    assert(body.subrange(2, 7) =~= "query"@);
    assert(occurs_at(body, "query"@, 2));
}

// ---------------------------------------------------------------------------
// The request
// ---------------------------------------------------------------------------

/// A request to Linear.
#[derive(Debug, PartialEq, Eq)]
pub struct LinearRequest {
    pub method: String,
    pub url: String,
    /// Name and value of each header.
    pub headers: Vec<(String, String)>,
    pub body: String,
}

/// What a [`LinearRequest`] stands for.
#[verifier::ext_equal]
pub struct LinearRequestModel {
    pub method: Seq<char>,
    pub url: Seq<char>,
    pub headers: Seq<(Seq<char>, Seq<char>)>,
    pub body: Seq<char>,
}

impl View for LinearRequest {
    type V = LinearRequestModel;

    open spec fn view(&self) -> LinearRequestModel {
        LinearRequestModel {
            method: self.method@,
            url: self.url@,
            headers: self.headers.deep_view(),
            body: self.body@,
        }
    }
}

/// The headers of a request with a given key.
pub open spec fn request_headers(key: Seq<char>) -> Seq<(Seq<char>, Seq<char>)> {
    seq![("Authorization"@, key), ("Content-Type"@, "application/json"@)]
}

/// The request for a viewer's context. The key stands in one header, and nowhere
/// else.
pub open spec fn context_request(key: Seq<char>, limit: nat) -> LinearRequestModel {
    LinearRequestModel {
        method: "POST"@,
        url: LINEAR_GRAPHQL_URL@,
        headers: request_headers(key),
        body: body_text(limit),
    }
}

/// The request for a viewer's context.
pub fn linear_request(key: &str, limit: usize) -> (request: LinearRequest)
    ensures
        request@ == context_request(key@, limit as nat),
{
    let mut headers: Vec<(String, String)> = Vec::new();
    headers.push(("Authorization".to_owned(), key.to_owned()));
    headers.push(("Content-Type".to_owned(), "application/json".to_owned()));
    assert(headers.deep_view() =~= request_headers(key@));
    LinearRequest {
        method: "POST".to_owned(),
        url: LINEAR_GRAPHQL_URL.to_owned(),
        headers,
        body: request_body(limit),
    }
}

/// `String::from_utf8`: the text that the bytes encode, where they are UTF-8.
#[verifier::external_body]
fn utf8_text(bytes: Vec<u8>) -> (text: Option<String>)
    ensures
        text is Some == valid_utf8(bytes@),
        text is Some ==> text->0@ == decode_utf8(bytes@),
{
    String::from_utf8(bytes).ok()
}

/// The key that an environment variable gives: its text, unless that is empty.
pub open spec fn filled(value: Option<Seq<char>>) -> Option<Seq<char>> {
    match value {
        Some(text) => if text.len() > 0 {
            Some(text)
        } else {
            None
        },
        None => None,
    }
}

/// The key that an environment variable gives: its text, unless that is empty.
pub fn env_key(value: Option<String>) -> (key: Option<String>)
    ensures
        key.deep_view() == filled(value.deep_view()),
{
    match value {
        Some(text) => if text.as_str().is_empty() {
            None
        } else {
            Some(text)
        },
        None => None,
    }
}

/// The key that a keychain record gives: its text, unless it has none or that is
/// empty.
pub open spec fn stored_key(password: Option<Seq<u8>>) -> Option<Seq<char>> {
    match password {
        Some(bytes) => if valid_utf8(bytes) {
            filled(Some(decode_utf8(bytes)))
        } else {
            None
        },
        None => None,
    }
}

/// The key that is used: that of the environment, else that of the keychain.
pub open spec fn chosen_key(env: Option<Seq<char>>, password: Option<Seq<u8>>) -> Option<Seq<char>> {
    match filled(env) {
        Some(key) => Some(key),
        None => stored_key(password),
    }
}

/// The bytes of a keychain record.
pub open spec fn record_bytes(password: Option<Vec<u8>>) -> Option<Seq<u8>> {
    match password {
        Some(bytes) => Some(bytes@),
        None => None,
    }
}

/// The key that is used. `env` is the environment variable, `password` the
/// keychain record.
pub fn resolve_linear_key(env: Option<String>, password: Option<Vec<u8>>) -> (key: Option<String>)
    ensures
        key.deep_view() == chosen_key(env.deep_view(), record_bytes(password)),
{
    match env_key(env) {
        Some(key) => Some(key),
        None => match password {
            Some(bytes) => env_key(utf8_text(bytes)),
            None => None,
        },
    }
}

/// What is done to load a snapshot.
#[derive(Debug, PartialEq, Eq)]
pub enum LinearLoad {
    /// Send the request, and hand its outcome to [`fetch_linear_context`].
    Send(LinearRequest),
    /// Show the snapshot.
    Show(LinearContext),
}

/// What a [`LinearLoad`] stands for.
#[verifier::ext_equal]
pub enum LinearLoadModel {
    Send(LinearRequestModel),
    Show(LinearContextModel),
}

impl View for LinearLoad {
    type V = LinearLoadModel;

    open spec fn view(&self) -> LinearLoadModel {
        match self {
            LinearLoad::Send(request) => LinearLoadModel::Send(request@),
            LinearLoad::Show(context) => LinearLoadModel::Show(context@),
        }
    }
}

/// What is done to load a snapshot: the request is sent where there is a key, and
/// without one nothing is.
pub open spec fn load_step(key: Option<Seq<char>>, limit: nat) -> LinearLoadModel {
    match key {
        Some(key) => LinearLoadModel::Send(context_request(key, limit)),
        None => LinearLoadModel::Show(LinearContextModel::disconnected()),
    }
}

/// What is done to load a snapshot.
pub fn load_linear_context(key: Option<String>, limit: usize) -> (load: LinearLoad)
    ensures
        load@ == load_step(key.deep_view(), limit as nat),
{
    match key {
        Some(key) => LinearLoad::Send(linear_request(key.as_str(), limit)),
        None => LinearLoad::Show(LinearContext::unauthenticated()),
    }
}

// ---------------------------------------------------------------------------
// The keychain
// ---------------------------------------------------------------------------

/// A change of a record of the keychain.
#[derive(Debug, PartialEq, Eq)]
pub enum KeychainChange {
    /// Store a user name and a password under a URL.
    Store { url: String, username: String, password: Vec<u8> },
    /// Remove the record under a URL.
    Delete { url: String },
}

/// What a [`KeychainChange`] stands for.
#[verifier::ext_equal]
pub enum KeychainChangeModel {
    Store { url: Seq<char>, username: Seq<char>, password: Seq<u8> },
    Delete { url: Seq<char> },
}

impl View for KeychainChange {
    type V = KeychainChangeModel;

    open spec fn view(&self) -> KeychainChangeModel {
        match self {
            KeychainChange::Store { url, username, password } => KeychainChangeModel::Store {
                url: url@,
                username: username@,
                password: password@,
            },
            KeychainChange::Delete { url } => KeychainChangeModel::Delete { url: url@ },
        }
    }
}

/// An optional change as what it stands for.
pub open spec fn optional_change(change: Option<KeychainChange>) -> Option<KeychainChangeModel> {
    match change {
        Some(change) => Some(change@),
        None => None,
    }
}

/// The change that stores a key.
pub open spec fn storing(key: Seq<char>) -> KeychainChangeModel {
    KeychainChangeModel::Store {
        url: LINEAR_CREDENTIAL_URL@,
        username: "linear"@,
        password: encode_utf8(key),
    }
}

/// The change that removes the stored key.
pub open spec fn clearing() -> KeychainChangeModel {
    KeychainChangeModel::Delete { url: LINEAR_CREDENTIAL_URL@ }
}

/// The change that stores the key of the environment, where it has one.
pub open spec fn connecting(env: Option<Seq<char>>) -> Option<KeychainChangeModel> {
    match filled(env) {
        Some(key) => Some(storing(key)),
        None => None,
    }
}

/// What is done to store a key.
pub fn store_linear_api_key(key: &str) -> (change: KeychainChange)
    ensures
        change@ == storing(key@),
{
    KeychainChange::Store {
        url: LINEAR_CREDENTIAL_URL.to_owned(),
        username: "linear".to_owned(),
        password: key.as_bytes_vec(),
    }
}

/// What is done to remove the stored key.
pub fn clear_linear_api_key() -> (change: KeychainChange)
    ensures
        change@ == clearing(),
{
    KeychainChange::Delete { url: LINEAR_CREDENTIAL_URL.to_owned() }
}

/// What is done to store the key of the environment, where it has one.
pub fn connect_linear_from_env(env: Option<String>) -> (change: Option<KeychainChange>)
    ensures
        optional_change(change) == connecting(env.deep_view()),
{
    match env_key(env) {
        Some(key) => Some(store_linear_api_key(key.as_str())),
        None => None,
    }
}

/// A keychain once a change was made: a user name and a password under each URL.
pub open spec fn changed(
    keychain: Map<Seq<char>, (Seq<char>, Seq<u8>)>,
    change: KeychainChangeModel,
) -> Map<Seq<char>, (Seq<char>, Seq<u8>)> {
    match change {
        KeychainChangeModel::Store { url, username, password } => keychain.insert(
            url,
            (username, password),
        ),
        KeychainChangeModel::Delete { url } => keychain.remove(url),
    }
}

/// The password that a keychain holds for Linear.
pub open spec fn linear_password(keychain: Map<Seq<char>, (Seq<char>, Seq<u8>)>) -> Option<
    Seq<u8>,
> {
    if keychain.contains_key(LINEAR_CREDENTIAL_URL@) {
        Some(keychain[LINEAR_CREDENTIAL_URL@].1)
    } else {
        None
    }
}

/// A stored key is the one that is used, where the environment has none.
pub proof fn a_stored_key_is_used(
    keychain: Map<Seq<char>, (Seq<char>, Seq<u8>)>,
    key: Seq<char>,
    env: Option<Seq<char>>,
    limit: nat,
)
    requires
        key.len() > 0,
        filled(env) is None,
    ensures
        load_step(chosen_key(env, linear_password(changed(keychain, storing(key)))), limit)
            == LinearLoadModel::Send(context_request(key, limit)),
{
    encode_utf8_valid_utf8(key);
    encode_utf8_decode_utf8(key);
}

/// Once the stored key has been removed, and the environment has none, nothing is
/// sent. What was stored before makes no difference.
pub proof fn without_the_stored_key_nothing_is_sent(
    keychain: Map<Seq<char>, (Seq<char>, Seq<u8>)>,
    key: Seq<char>,
    env: Option<Seq<char>>,
    limit: nat,
)
    requires
        filled(env) is None,
    ensures
        load_step(
            chosen_key(
                env,
                linear_password(changed(changed(keychain, storing(key)), clearing())),
            ),
            limit,
        ) == LinearLoadModel::Show(LinearContextModel::disconnected()),
        load_step(chosen_key(env, linear_password(changed(keychain, clearing()))), limit)
            == LinearLoadModel::Show(LinearContextModel::disconnected()),
{
}

/// The changes touch no record but that of Linear.
pub proof fn other_records_stay(
    keychain: Map<Seq<char>, (Seq<char>, Seq<u8>)>,
    key: Seq<char>,
    url: Seq<char>,
)
    requires
        url != LINEAR_CREDENTIAL_URL@,
    ensures
        changed(keychain, storing(key)).contains_key(url) == keychain.contains_key(url),
        changed(keychain, clearing()).contains_key(url) == keychain.contains_key(url),
        keychain.contains_key(url) ==> {
            &&& changed(keychain, storing(key))[url] == keychain[url]
            &&& changed(keychain, clearing())[url] == keychain[url]
        },
{
}

// ---------------------------------------------------------------------------
// The answer
// ---------------------------------------------------------------------------

/// The nodes of a GraphQL connection.
#[derive(Debug, PartialEq, Eq)]
pub struct Connection<T> {
    pub nodes: Vec<T>,
}

/// The viewer of an answer.
#[derive(Debug, PartialEq, Eq)]
pub struct Viewer {
    pub name: Option<String>,
}

/// A team of an answer.
#[derive(Debug, PartialEq, Eq)]
pub struct TeamNode {
    pub key: String,
    pub name: String,
}

/// A project of an answer.
#[derive(Debug, PartialEq, Eq)]
pub struct ProjectNode {
    pub name: String,
}

/// An issue of an answer.
#[derive(Debug, PartialEq, Eq)]
pub struct IssueNode {
    pub identifier: String,
    pub title: String,
}

/// The data of an answer.
#[derive(Debug, PartialEq, Eq)]
pub struct DataNode {
    pub viewer: Option<Viewer>,
    pub teams: Option<Connection<TeamNode>>,
    pub projects: Option<Connection<ProjectNode>>,
    pub issues: Option<Connection<IssueNode>>,
}

/// An error of an answer.
#[derive(Debug, PartialEq, Eq)]
pub struct ErrorNode {
    pub message: String,
}

/// An answer.
#[derive(Debug, PartialEq, Eq)]
pub struct Envelope {
    pub data: Option<DataNode>,
    pub errors: Option<Vec<ErrorNode>>,
}

/// The messages of the errors of an answer, as far as they are texts.
pub open spec fn error_texts(errors: Seq<JsonView>) -> Seq<Seq<char>>
    decreases errors.len(),
{
    if errors.len() == 0 {
        Seq::empty()
    } else {
        let before = error_texts(errors.drop_last());
        match errors.last().text_field("message"@) {
            Some(message) => before.push(message),
            None => before,
        }
    }
}

/// Errors as what they stand for.
pub open spec fn error_models(errors: Seq<ErrorNode>) -> Seq<Seq<char>> {
    Seq::new(errors.len(), |i: int| errors[i].message@)
}

/// The errors that the field `errors` of an answer holds. What is no list holds
/// none, and what has no message is none.
pub fn error_nodes(errors: &Json) -> (nodes: Vec<ErrorNode>)
    ensures
        error_models(nodes@) == (match errors@.items() {
            Some(items) => error_texts(items),
            None => Seq::empty(),
        }),
{
    let mut nodes: Vec<ErrorNode> = Vec::new();
    assert(error_models(nodes@) =~= Seq::empty());
    if let Json::Array(items) = errors {
        let ghost all = errors@->Array_0;
        let mut i: usize = 0;
        assert(all.take(0) =~= Seq::empty());
        while i < items.len()
            invariant
                i <= items@.len(),
                all == Json::Array(*items)@->Array_0,
                all.len() == items@.len(),
                error_models(nodes@) == error_texts(all.take(i as int)),
            decreases items@.len() - i,
        {
            proof {
                assert(all.take(i + 1).drop_last() =~= all.take(i as int));
                assert(all.take(i + 1).last() == items@[i as int]@);
            }
            let ghost before = error_models(nodes@);
            if let Some(message) = items[i].text_field("message") {
                nodes.push(ErrorNode { message: message.to_owned() });
                assert(error_models(nodes@) =~= before.push(message@));
            }
            i = i + 1;
        }
        assert(all.take(i as int) =~= all);
    }
    nodes
}

/// A message that complains of authentication.
pub open spec fn complains_of_authentication(message: Seq<char>) -> bool {
    contains_text(ascii_lowercase_text(message), "authenticat"@)
}

/// One of some errors complains of authentication.
pub open spec fn any_auth_error(errors: Seq<ErrorNode>) -> bool {
    exists|i: int|
        0 <= i < errors.len() && complains_of_authentication((#[trigger] errors[i]).message@)
}

/// An answer one of whose errors complains of authentication.
pub open spec fn has_auth_error(envelope: Option<Envelope>) -> bool {
    match envelope {
        Some(envelope) => match envelope.errors {
            Some(errors) => any_auth_error(errors@),
            None => false,
        },
        None => false,
    }
}

/// Whether one of `errors` complains of authentication.
fn find_auth_error(errors: &Vec<ErrorNode>) -> (found: bool)
    ensures
        found == any_auth_error(errors@),
{
    let mut i: usize = 0;
    while i < errors.len()
        invariant
            i <= errors@.len(),
            forall|j: int|
                0 <= j < i ==> !complains_of_authentication((#[trigger] errors@[j]).message@),
        decreases errors@.len() - i,
    {
        if contains_in_ascii_lowercase(errors[i].message.as_str(), "authenticat") {
            assert(complains_of_authentication(errors@[i as int].message@));
            return true;
        }
        i = i + 1;
    }
    false
}

/// Whether one of the errors of an answer complains of authentication.
pub fn reports_auth_error(envelope: &Option<Envelope>) -> (reports: bool)
    ensures
        reports == has_auth_error(*envelope),
{
    match envelope {
        Some(envelope) => match &envelope.errors {
            Some(errors) => find_auth_error(errors),
            None => false,
        },
        None => false,
    }
}

/// The nodes of a connection, none where it is missing.
pub open spec fn nodes_of<T>(connection: Option<Connection<T>>) -> Seq<T> {
    match connection {
        Some(connection) => connection.nodes@,
        None => Seq::empty(),
    }
}

/// The snapshot of an answer's data.
pub open spec fn data_context(data: DataNode) -> LinearContextModel {
    let teams = nodes_of(data.teams);
    let projects = nodes_of(data.projects);
    let issues = nodes_of(data.issues);
    LinearContextModel {
        authenticated: true,
        status: None,
        viewer: match data.viewer {
            Some(viewer) => viewer.name.deep_view(),
            None => None,
        },
        teams: Seq::new(teams.len(), |i: int| (teams[i].key@, teams[i].name@)),
        projects: Seq::new(projects.len(), |i: int| projects[i].name@),
        issues: Seq::new(issues.len(), |i: int| (issues[i].identifier@, issues[i].title@)),
    }
}

/// The snapshot of an answer; none where it carries no data.
pub open spec fn envelope_context(envelope: Option<Envelope>) -> Option<LinearContextModel> {
    match envelope {
        Some(envelope) => match envelope.data {
            Some(data) => Some(data_context(data)),
            None => None,
        },
        None => None,
    }
}

/// The snapshot of an answer. `envelope` is the answer, nothing where the body
/// was not one; without data there is no snapshot.
pub fn parse_linear_context(envelope: Option<Envelope>) -> (context: Option<LinearContext>)
    ensures
        context is Some == envelope_context(envelope) is Some,
        context is Some ==> context->0@ == envelope_context(envelope)->0,
{
    let data = match envelope {
        Some(envelope) => match envelope.data {
            Some(data) => data,
            None => return None,
        },
        None => return None,
    };
    let ghost expected = data_context(data);
    let mut teams: Vec<LinearTeam> = Vec::new();
    if let Some(connection) = data.teams {
        let nodes = connection.nodes;
        for team in iter: nodes
            invariant
                iter.seq() == nodes@,
                teams@.len() == iter.index(),
                forall|i: int|
                    0 <= i < teams@.len() ==> (#[trigger] teams@[i]).key@ == nodes@[i].key@
                        && teams@[i].name@ == nodes@[i].name@,
        {
            teams.push(LinearTeam { key: team.key, name: team.name });
        }
    }
    assert(team_views(teams@) =~= expected.teams);
    let mut projects: Vec<String> = Vec::new();
    if let Some(connection) = data.projects {
        let nodes = connection.nodes;
        for project in iter: nodes
            invariant
                iter.seq() == nodes@,
                projects@.len() == iter.index(),
                forall|i: int|
                    0 <= i < projects@.len() ==> (#[trigger] projects@[i])@ == nodes@[i].name@,
        {
            projects.push(project.name);
        }
    }
    assert(projects.deep_view() =~= expected.projects);
    let mut issues: Vec<LinearIssue> = Vec::new();
    if let Some(connection) = data.issues {
        let nodes = connection.nodes;
        for issue in iter: nodes
            invariant
                iter.seq() == nodes@,
                issues@.len() == iter.index(),
                forall|i: int|
                    0 <= i < issues@.len() ==> (#[trigger] issues@[i]).identifier@
                        == nodes@[i].identifier@ && issues@[i].title@ == nodes@[i].title@,
        {
            issues.push(LinearIssue { identifier: issue.identifier, title: issue.title });
        }
    }
    assert(issue_views(issues@) =~= expected.issues);
    let viewer = match data.viewer {
        Some(viewer) => viewer.name,
        None => None,
    };
    Some(LinearContext { authenticated: true, status: None, viewer, teams, projects, issues })
}

/// The body of an answer: its text, and what it holds where it is an answer.
#[derive(Debug, PartialEq, Eq)]
pub struct LinearBody {
    pub text: String,
    pub envelope: Option<Envelope>,
}

/// What became of the request.
#[derive(Debug, PartialEq, Eq)]
pub enum LinearReply {
    /// No request could be built.
    NotBuilt,
    /// No answer came.
    Unreachable,
    /// An answer came, with a status and a body, nothing where the body could
    /// not be read.
    Answered(u16, Option<LinearBody>),
}

/// Whether a status says that the key was refused.
pub open spec fn refuses_key(status: u16) -> bool {
    status == 400 || status == 401 || status == 403
}

/// Whether a status says that the request was granted.
pub open spec fn is_success(status: u16) -> bool {
    200 <= status < 300
}

/// Whether the body of an answer with this status is read.
pub fn reads_body(status: u16) -> (reads: bool)
    ensures
        reads == is_success(status),
{
    200 <= status && status < 300
}

/// The snapshot that a body shows. An error that complains of authentication
/// counts for more than the data beside it.
pub open spec fn body_context(body: LinearBody) -> LinearContextModel {
    if has_auth_error(body.envelope) {
        LinearContextModel::disconnected()
    } else {
        match envelope_context(body.envelope) {
            Some(context) => context,
            None => if complains_of_authentication(body.text@) {
                LinearContextModel::disconnected()
            } else {
                LinearContextModel::told("Unexpected Linear response"@)
            },
        }
    }
}

/// The snapshot that a request leads to.
pub open spec fn reply_context(reply: LinearReply) -> LinearContextModel {
    match reply {
        LinearReply::NotBuilt => LinearContextModel::told("Could not build the Linear request"@),
        LinearReply::Unreachable => LinearContextModel::told("Could not reach Linear"@),
        LinearReply::Answered(status, body) => if refuses_key(status) {
            LinearContextModel::disconnected()
        } else if !is_success(status) {
            LinearContextModel::told("Linear returned HTTP "@ + decimal_text(status as nat))
        } else {
            match body {
                Some(body) => body_context(body),
                None => LinearContextModel::told("Could not read the Linear response"@),
            }
        },
    }
}

/// The snapshot that a request leads to. A refused key, and an answer that
/// complains of authentication, lead to the snapshot without a connection; other
/// failures to one that tells them.
pub fn fetch_linear_context(reply: LinearReply) -> (context: LinearContext)
    ensures
        context@ == reply_context(reply),
{
    match reply {
        LinearReply::NotBuilt => LinearContext::error("Could not build the Linear request"),
        LinearReply::Unreachable => LinearContext::error("Could not reach Linear"),
        LinearReply::Answered(status, body) => {
            if status == 400 || status == 401 || status == 403 {
                return LinearContext::unauthenticated();
            }
            if !reads_body(status) {
                let message = concatenated("Linear returned HTTP ", decimal(status as u64).as_str());
                return LinearContext::error(message.as_str());
            }
            let body = match body {
                Some(body) => body,
                None => return LinearContext::error("Could not read the Linear response"),
            };
            if reports_auth_error(&body.envelope) {
                return LinearContext::unauthenticated();
            }
            match parse_linear_context(body.envelope) {
                Some(context) => context,
                None => if contains_in_ascii_lowercase(body.text.as_str(), "authenticat") {
                    LinearContext::unauthenticated()
                } else {
                    LinearContext::error("Unexpected Linear response")
                },
            }
        },
    }
}

/// A snapshot that is not authenticated shows nothing of anyone, and tells why.
pub proof fn unauthenticated_snapshots_are_empty(reply: LinearReply)
    ensures
        ({
            let context = reply_context(reply);
            !context.authenticated ==> {
                &&& context.status is Some
                &&& context.viewer is None
                &&& context.teams.len() == 0
                &&& context.projects.len() == 0
                &&& context.issues.len() == 0
                &&& context.summary() == context.status->0
            }
        }),
{
}

/// A snapshot is authenticated only where the request was granted and its answer
/// carries data, and no error that complains of authentication.
pub proof fn only_data_authenticates(reply: LinearReply)
    ensures
        reply_context(reply).authenticated <==> (reply matches LinearReply::Answered(
            status,
            Some(body),
        ) && is_success(status) && envelope_context(body.envelope) is Some && !has_auth_error(
            body.envelope,
        )),
{
}

/// Whatever data an answer carries, an error that complains of authentication
/// leads to the snapshot without a connection.
pub proof fn auth_errors_disconnect(status: u16, body: LinearBody)
    requires
        is_success(status),
        has_auth_error(body.envelope),
    ensures
        reply_context(LinearReply::Answered(status, Some(body)))
            == LinearContextModel::disconnected(),
{
}

// ---------------------------------------------------------------------------
// What the snapshot tells
// ---------------------------------------------------------------------------

/// The line that sums up a snapshot with the given numbers of teams, projects and
/// issues.
pub open spec fn is_summary_of(
    summary: Seq<char>,
    viewer: Option<Seq<char>>,
    teams: nat,
    projects: nat,
    issues: nat,
) -> bool {
    let of_teams = if teams == 1 {
        "1 team"@
    } else {
        decimal_text(teams) + " teams"@
    };
    let of_projects = if projects == 1 {
        "1 project"@
    } else {
        decimal_text(projects) + " projects"@
    };
    let of_issues = if issues == 1 {
        "1 issue"@
    } else {
        decimal_text(issues) + " issues"@
    };
    let counts = of_teams + " · "@ + of_projects + " · "@ + of_issues;
    match viewer {
        Some(viewer) => summary == viewer + " · "@ + counts,
        None => summary == counts,
    }
}

proof fn nouns_are_counted(count: nat)
    ensures
        counted(count, "team"@) == (if count == 1 {
            "1 team"@
        } else {
            decimal_text(count) + " teams"@
        }),
        counted(count, "project"@) == (if count == 1 {
            "1 project"@
        } else {
            decimal_text(count) + " projects"@
        }),
        counted(count, "issue"@) == (if count == 1 {
            "1 issue"@
        } else {
            decimal_text(count) + " issues"@
        }),
{
    reveal_strlit("1 ");
    reveal_strlit(" ");
    reveal_strlit("s");
    reveal_strlit("team");
    reveal_strlit("project");
    reveal_strlit("issue");
    reveal_strlit("1 team");
    reveal_strlit("1 project");
    reveal_strlit("1 issue");
    reveal_strlit(" teams");
    reveal_strlit(" projects");
    reveal_strlit(" issues");
    assert("1 "@ + "team"@ =~= "1 team"@);
    assert("1 "@ + "project"@ =~= "1 project"@);
    assert("1 "@ + "issue"@ =~= "1 issue"@);
    assert(" "@ + "team"@ + "s"@ =~= " teams"@);
    assert(" "@ + "project"@ + "s"@ =~= " projects"@);
    assert(" "@ + "issue"@ + "s"@ =~= " issues"@);
    let digits = decimal_text(count);
    assert(digits + " "@ + "team"@ + "s"@ =~= digits + " teams"@);
    assert(digits + " "@ + "project"@ + "s"@ =~= digits + " projects"@);
    assert(digits + " "@ + "issue"@ + "s"@ =~= digits + " issues"@);
}

proof fn counts_are_joined(context: LinearContextModel)
    requires
        context.authenticated,
    ensures
        ({
            let counts = counted(context.teams.len(), "team"@) + " · "@ + counted(
                context.projects.len(),
                "project"@,
            ) + " · "@ + counted(context.issues.len(), "issue"@);
            match context.viewer {
                Some(viewer) => context.summary() == viewer + " · "@ + counts,
                None => context.summary() == counts,
            }
        }),
{
    let dot = " · "@;
    let teams = counted(context.teams.len(), "team"@);
    let projects = counted(context.projects.len(), "project"@);
    let issues = counted(context.issues.len(), "issue"@);
    let all = seq![teams, projects, issues];
    let counts = teams + dot + projects + dot + issues;
    joining_in_two_parts(seq![teams], seq![projects], teams, dot);
    joining_in_two_parts(seq![teams], seq![projects], projects, dot);
    joining_in_two_parts(seq![teams, projects], seq![issues], issues, dot);
    assert(seq![teams] + seq![projects] =~= seq![teams, projects]);
    assert(seq![teams, projects] + seq![issues] =~= all);
    assert(joined(all, dot) =~= counts);
    if let Some(viewer) = context.viewer {
        joining_in_two_parts(seq![viewer], all, viewer, dot);
        assert(context.summary() =~= viewer + dot + counts);
    } else {
        assert(context.summary() =~= counts);
    }
}

/// A snapshot that is authenticated is summed up by the viewer, where known, and then
/// by the number of its teams, of its projects and of its issues, in this order.
pub proof fn the_summary_counts_what_is_there(context: LinearContextModel)
    requires
        context.authenticated,
    ensures
        is_summary_of(
            context.summary(),
            context.viewer,
            context.teams.len(),
            context.projects.len(),
            context.issues.len(),
        ),
{
    counts_are_joined(context);
    nouns_are_counted(context.teams.len());
    nouns_are_counted(context.projects.len());
    nouns_are_counted(context.issues.len());
}

/// Different counts of the same thing are told differently.
pub proof fn counts_differ(left: nat, right: nat, noun: Seq<char>)
    requires
        counted(left, noun) == counted(right, noun),
    ensures
        left == right,
{
    reveal_strlit("1 ");
    reveal_strlit(" ");
    reveal_strlit("s");
    decimal_text_is_digits(left);
    decimal_text_is_digits(right);
    assert("1 "@.len() == 2 && " "@.len() == 1 && "s"@.len() == 1);
    assert(left != 1 ==> counted(left, noun).len() >= 3 + noun.len());
    assert(right != 1 ==> counted(right, noun).len() >= 3 + noun.len());
    if left != 1 && right != 1 {
        let end = " "@ + noun + "s"@;
        assert(counted(left, noun) =~= Seq::<char>::empty() + decimal_text(left) + end);
        assert(counted(right, noun) =~= Seq::<char>::empty() + decimal_text(right) + end);
        what_stands_between_is_equal(Seq::empty(), decimal_text(left), decimal_text(right), end);
        decimal_text_is_injective(left, right);
    }
}

spec fn dotted(
    before: Seq<char>,
    first: Seq<char>,
    second: Seq<char>,
    third: Seq<char>,
) -> Seq<char> {
    before + (first + " · "@ + second + " · "@ + third)
}

proof fn the_first_differs(
    before: Seq<char>,
    first: Seq<char>,
    other: Seq<char>,
    second: Seq<char>,
    third: Seq<char>,
)
    requires
        dotted(before, first, second, third) == dotted(before, other, second, third),
    ensures
        first == other,
{
    let end = " · "@ + second + " · "@ + third;
    assert(dotted(before, first, second, third) =~= before + first + end);
    assert(dotted(before, other, second, third) =~= before + other + end);
    what_stands_between_is_equal(before, first, other, end);
}

proof fn the_second_differs(
    before: Seq<char>,
    first: Seq<char>,
    second: Seq<char>,
    other: Seq<char>,
    third: Seq<char>,
)
    requires
        dotted(before, first, second, third) == dotted(before, first, other, third),
    ensures
        second == other,
{
    let start = before + first + " · "@;
    let end = " · "@ + third;
    assert(dotted(before, first, second, third) =~= start + second + end);
    assert(dotted(before, first, other, third) =~= start + other + end);
    what_stands_between_is_equal(start, second, other, end);
}

proof fn the_third_differs(
    before: Seq<char>,
    first: Seq<char>,
    second: Seq<char>,
    third: Seq<char>,
    other: Seq<char>,
)
    requires
        dotted(before, first, second, third) == dotted(before, first, second, other),
    ensures
        third == other,
{
    let start = before + first + " · "@ + second + " · "@;
    assert(dotted(before, first, second, third) =~= start + third + Seq::<char>::empty());
    assert(dotted(before, first, second, other) =~= start + other + Seq::<char>::empty());
    what_stands_between_is_equal(start, third, other, Seq::empty());
}

/// Two snapshots of one viewer that differ in the number of their teams alone, in that
/// of their projects alone, or in that of their issues alone are summed up
/// differently.
pub proof fn summaries_tell_snapshots_apart(
    left: LinearContextModel,
    right: LinearContextModel,
)
    requires
        left.authenticated && right.authenticated,
        left.viewer == right.viewer,
        left.summary() == right.summary(),
    ensures
        left.projects.len() == right.projects.len() && left.issues.len() == right.issues.len()
            ==> left.teams.len() == right.teams.len(),
        left.teams.len() == right.teams.len() && left.issues.len() == right.issues.len()
            ==> left.projects.len() == right.projects.len(),
        left.teams.len() == right.teams.len() && left.projects.len() == right.projects.len()
            ==> left.issues.len() == right.issues.len(),
{
    counts_are_joined(left);
    counts_are_joined(right);
    let before = match left.viewer {
        Some(viewer) => viewer + " · "@,
        None => Seq::empty(),
    };
    let teams = counted(left.teams.len(), "team"@);
    let projects = counted(left.projects.len(), "project"@);
    let issues = counted(left.issues.len(), "issue"@);
    let other_teams = counted(right.teams.len(), "team"@);
    let other_projects = counted(right.projects.len(), "project"@);
    let other_issues = counted(right.issues.len(), "issue"@);
    assert(left.summary() =~= dotted(before, teams, projects, issues));
    assert(right.summary() =~= dotted(before, other_teams, other_projects, other_issues));
    if projects == other_projects && issues == other_issues {
        the_first_differs(before, teams, other_teams, projects, issues);
        counts_differ(left.teams.len(), right.teams.len(), "team"@);
    }
    if teams == other_teams && issues == other_issues {
        the_second_differs(before, teams, projects, other_projects, issues);
        counts_differ(left.projects.len(), right.projects.len(), "project"@);
    }
    if teams == other_teams && projects == other_projects {
        the_third_differs(before, teams, projects, issues, other_issues);
        counts_differ(left.issues.len(), right.issues.len(), "issue"@);
    }
}

/// A snapshot that is not authenticated is summed up by its status, or by a text of
/// its own where it has none. One that tells why there is nothing to show holds
/// nothing else.
pub proof fn without_authentication_the_status_is_told(
    context: LinearContextModel,
    message: Seq<char>,
)
    ensures
        !context.authenticated && context.status is None ==> context.summary()
            == "Linear not connected"@,
        !context.authenticated ==> (context.status matches Some(status) ==> context.summary()
            == status),
        LinearContextModel::told(message) == (LinearContextModel {
            authenticated: false,
            status: Some(message),
            viewer: None,
            teams: Seq::empty(),
            projects: Seq::empty(),
            issues: Seq::empty(),
        }),
        LinearContextModel::disconnected() == LinearContextModel::told("Linear not connected"@),
        LinearContextModel::empty(None).status is None,
{
}

// ---------------------------------------------------------------------------
// What is asked and what is answered
// ---------------------------------------------------------------------------

proof fn a_part_is_contained(start: Seq<char>, part: Seq<char>, end: Seq<char>)
    ensures
        contains_text(start + part + end, part),
{
    let text = start + part + end;
    let at = start.len() as int;
    assert(text.subrange(at, at + part.len()) =~= part);
    assert(occurs_at(text, part, start.len() as int));
}

/// The query asks for the viewer's name, and for the teams, the projects and the
/// issues, no more of each than the limit.
pub proof fn the_query_asks_for_what_is_shown(limit: nat)
    ensures
        ({
            let query = query_text(limit);
            let count = decimal_text(limit);
            &&& contains_text(query, "viewer { name }"@)
            &&& contains_text(query, "teams(first: "@ + count + ") { nodes { key name } }"@)
            &&& contains_text(query, "projects(first: "@ + count + ") { nodes { name } }"@)
            &&& contains_text(
                query,
                "issues(first: "@ + count + ") { nodes { identifier title } }"@,
            )
        }),
{
    reveal_strlit("query { viewer { name } teams(first: ");
    reveal_strlit(") { nodes { key name } } projects(first: ");
    reveal_strlit(") { nodes { name } } issues(first: ");
    reveal_strlit(") { nodes { identifier title } } }");
    reveal_strlit("viewer { name }");
    reveal_strlit("teams(first: ");
    reveal_strlit("projects(first: ");
    reveal_strlit("issues(first: ");
    reveal_strlit(") { nodes { key name } }");
    reveal_strlit(") { nodes { name } }");
    reveal_strlit(") { nodes { identifier title } }");
    reveal_strlit("query { ");
    reveal_strlit("query { viewer { name } ");
    reveal_strlit(" teams(first: ");
    reveal_strlit(" projects(first: ");
    reveal_strlit(" issues(first: ");
    reveal_strlit(" }");
    reveal_strlit(" ");
    let query = query_text(limit);
    let count = decimal_text(limit);
    let first = "query { viewer { name } teams(first: "@;
    let second = ") { nodes { key name } } projects(first: "@;
    let third = ") { nodes { name } } issues(first: "@;
    let fourth = ") { nodes { identifier title } } }"@;
    assert(first =~= "query { "@ + "viewer { name }"@ + " teams(first: "@);
    assert(first =~= "query { viewer { name } "@ + "teams(first: "@);
    assert(second =~= ") { nodes { key name } }"@ + " projects(first: "@);
    assert(" projects(first: "@ =~= " "@ + "projects(first: "@);
    assert(third =~= ") { nodes { name } }"@ + " issues(first: "@);
    assert(" issues(first: "@ =~= " "@ + "issues(first: "@);
    assert(fourth =~= ") { nodes { identifier title } }"@ + " }"@);
    let teams = "teams(first: "@ + count + ") { nodes { key name } }"@;
    let projects = "projects(first: "@ + count + ") { nodes { name } }"@;
    let issues = "issues(first: "@ + count + ") { nodes { identifier title } }"@;
    let from_projects = " projects(first: "@ + count + third + count + fourth;
    let from_issues = " issues(first: "@ + count + fourth;
    let to_projects = first + count + ") { nodes { key name } }"@ + " "@;
    let to_issues = first + count + second + count + ") { nodes { name } }"@ + " "@;
    let after_viewer = " teams(first: "@ + count + second + count + third + count + fourth;
    assert(query =~= "query { "@ + "viewer { name }"@ + after_viewer);
    a_part_is_contained("query { "@, "viewer { name }"@, after_viewer);
    assert(query =~= "query { viewer { name } "@ + teams + from_projects);
    a_part_is_contained("query { viewer { name } "@, teams, from_projects);
    assert(query =~= to_projects + projects + from_issues);
    a_part_is_contained(to_projects, projects, from_issues);
    assert(query =~= to_issues + issues + " }"@);
    a_part_is_contained(to_issues, issues, " }"@);
}

/// A request goes to Linear alone, with the key in one header and the query as its
/// body.
pub proof fn the_key_stands_in_one_header(key: Seq<char>, limit: nat)
    ensures
        ({
            let request = context_request(key, limit);
            &&& request.method == "POST"@
            &&& request.url == "https://api.linear.app/graphql"@
            &&& request.headers == seq![
                ("Authorization"@, key),
                ("Content-Type"@, "application/json"@),
            ]
            &&& request.body == "{\""@ + "query"@ + "\":\""@ + query_text(limit) + "\"}"@
        }),
{
}

/// The key of the environment is used where it has one that is not empty; else that
/// of the keychain, where it is a text that is not empty; else there is none.
pub proof fn the_key_of_the_environment_comes_first(
    env: Option<Seq<char>>,
    password: Option<Seq<u8>>,
)
    ensures
        ({
            let set = env is Some && env->0.len() > 0;
            let stored = password is Some && valid_utf8(password->0) && decode_utf8(
                password->0,
            ).len() > 0;
            &&& set ==> chosen_key(env, password) == env
            &&& !set && stored ==> chosen_key(env, password) == Some(decode_utf8(password->0))
            &&& !set && !stored ==> chosen_key(env, password) is None
            &&& filled(env) is Some <==> set
            &&& set ==> filled(env) == env
        }),
{
}

/// With a key the request with that key is sent, and without one nothing is: the
/// snapshot without a connection is shown.
pub proof fn only_with_a_key_a_request_is_sent(key: Seq<char>, limit: nat)
    ensures
        load_step(Some(key), limit) == LinearLoadModel::Send(context_request(key, limit)),
        load_step(None, limit) == LinearLoadModel::Show(
            LinearContextModel {
                authenticated: false,
                status: Some("Linear not connected"@),
                viewer: None,
                teams: Seq::empty(),
                projects: Seq::empty(),
                issues: Seq::empty(),
            },
        ),
{
}

/// A key is stored under the address of Linear, as the bytes of its text, and removed
/// from there. Connecting stores the key of the environment, where it has one that is
/// not empty, and does nothing where it has none.
pub proof fn keys_are_kept_under_the_address_of_linear(key: Seq<char>, env: Option<Seq<char>>)
    ensures
        storing(key) == (KeychainChangeModel::Store {
            url: "https://api.linear.app"@,
            username: "linear"@,
            password: encode_utf8(key),
        }),
        clearing() == (KeychainChangeModel::Delete { url: "https://api.linear.app"@ }),
        env is Some && env->0.len() > 0 ==> connecting(env) == Some(storing(env->0)),
        env is None || env->0.len() == 0 ==> connecting(env) is None,
{
}

/// Errors are read one by one: what has a message gives it, anything else gives
/// nothing, and two lists give what they give one after the other.
pub proof fn errors_are_read_one_by_one(
    left: Seq<JsonView>,
    right: Seq<JsonView>,
    error: JsonView,
    message: Seq<char>,
)
    ensures
        error_texts(Seq::empty()).len() == 0,
        error.get("message"@) == Some(JsonView::Text(message)) ==> error_texts(seq![error]) == seq![
            message,
        ],
        !(error.get("message"@) matches Some(JsonView::Text(_))) ==> error_texts(
            seq![error],
        ).len() == 0,
        error_texts(left + right) == error_texts(left) + error_texts(right),
    decreases right.len(),
{
    reveal_with_fuel(error_texts, 2);
    assert(seq![error].drop_last() =~= Seq::empty());
    assert(error.get("message"@) == Some(JsonView::Text(message)) ==> error_texts(seq![error])
        =~= seq![message]);
    if right.len() == 0 {
        assert(left + right =~= left);
        assert(error_texts(left) + error_texts(right) =~= error_texts(left));
    } else {
        errors_are_read_one_by_one(left, right.drop_last(), error, message);
        assert((left + right).drop_last() =~= left + right.drop_last());
        assert(error_texts(left + right) =~= error_texts(left) + error_texts(right));
    }
}

/// A message complains of authentication where the word stands in it, whatever the
/// case of its letters.
pub proof fn complaints_are_recognized_in_any_case(message: Seq<char>)
    ensures
        complains_of_authentication(message) <==> exists|at: int|
            stands_in_any_case(message, "authenticat"@, at),
{
    searching_ignores_case(message, "authenticat"@);
}

/// An answer reports a complaint of authentication exactly where one of its errors is
/// one.
pub proof fn one_complaint_is_enough(envelope: Envelope)
    ensures
        !has_auth_error(None),
        has_auth_error(Some(envelope)) <==> envelope.errors is Some && exists|i: int|
            0 <= i < envelope.errors->0@.len() && complains_of_authentication(
                (#[trigger] envelope.errors->0@[i]).message@,
            ),
{
}

/// The data of an answer is taken over: the viewer's name, and each team, project and
/// issue with what it is called, in the same order. What is missing is empty.
pub proof fn data_is_taken_over(data: DataNode, i: int)
    ensures
        ({
            let context = data_context(data);
            &&& context.authenticated
            &&& context.status is None
            &&& data.viewer is None ==> context.viewer is None
            &&& data.viewer matches Some(viewer) ==> context.viewer == viewer.name.deep_view()
            &&& data.teams is None ==> context.teams.len() == 0
            &&& data.projects is None ==> context.projects.len() == 0
            &&& data.issues is None ==> context.issues.len() == 0
            &&& data.teams matches Some(teams) ==> {
                &&& context.teams.len() == teams.nodes@.len()
                &&& 0 <= i < teams.nodes@.len() ==> context.teams[i] == (
                    teams.nodes@[i].key@,
                    teams.nodes@[i].name@,
                )
            }
            &&& data.projects matches Some(projects) ==> {
                &&& context.projects.len() == projects.nodes@.len()
                &&& 0 <= i < projects.nodes@.len() ==> context.projects[i]
                    == projects.nodes@[i].name@
            }
            &&& data.issues matches Some(issues) ==> {
                &&& context.issues.len() == issues.nodes@.len()
                &&& 0 <= i < issues.nodes@.len() ==> context.issues[i] == (
                    issues.nodes@[i].identifier@,
                    issues.nodes@[i].title@,
                )
            }
        }),
{
}

/// Every outcome of a request is told: a refused key and a complaint of authentication
/// lead to the snapshot without a connection, data is shown, and any other failure
/// says what it is.
pub proof fn every_outcome_is_told(status: u16, body: LinearBody)
    ensures
        reply_context(LinearReply::NotBuilt).status == Some("Could not build the Linear request"@),
        reply_context(LinearReply::Unreachable).status == Some("Could not reach Linear"@),
        !reply_context(LinearReply::NotBuilt).authenticated,
        !reply_context(LinearReply::Unreachable).authenticated,
        status == 400 || status == 401 || status == 403 ==> {
            &&& !reply_context(LinearReply::Answered(status, Some(body))).authenticated
            &&& reply_context(LinearReply::Answered(status, Some(body))).status == Some(
                "Linear not connected"@,
            )
            &&& reply_context(LinearReply::Answered(status, None)).status == Some(
                "Linear not connected"@,
            )
        },
        status != 400 && status != 401 && status != 403 && (status < 200 || status > 299) ==> {
            &&& !reply_context(LinearReply::Answered(status, Some(body))).authenticated
            &&& reply_context(LinearReply::Answered(status, Some(body))).status == Some(
                "Linear returned HTTP "@ + decimal_text(status as nat),
            )
        },
        200 <= status <= 299 ==> {
            let answered = reply_context(LinearReply::Answered(status, Some(body)));
            let complains = has_auth_error(body.envelope);
            let has_data = body.envelope is Some && body.envelope->0.data is Some;
            &&& reply_context(LinearReply::Answered(status, None)).status == Some(
                "Could not read the Linear response"@,
            )
            &&& complains ==> answered.status == Some("Linear not connected"@)
                && !answered.authenticated
            &&& !complains && has_data ==> answered == data_context(body.envelope->0.data->0)
            &&& !complains && !has_data && complains_of_authentication(body.text@)
                ==> answered.status == Some("Linear not connected"@) && !answered.authenticated
            &&& !complains && !has_data && !complains_of_authentication(body.text@)
                ==> answered.status == Some("Unexpected Linear response"@)
                && !answered.authenticated
        },
{
}

/// Snapshots, requests and changes stand for what they hold.
pub proof fn snapshots_and_requests_stand_for_what_they_hold(
    context: LinearContext,
    request: LinearRequest,
    teams: Seq<LinearTeam>,
    issues: Seq<LinearIssue>,
    errors: Seq<ErrorNode>,
    i: int,
    text: String,
    bytes: Vec<u8>,
)
    ensures
        context@.authenticated == context.authenticated,
        context@.status == context.status.deep_view(),
        context@.viewer == context.viewer.deep_view(),
        context@.teams == team_views(context.teams@),
        context@.projects == context.projects.deep_view(),
        context@.issues == issue_views(context.issues@),
        team_views(teams).len() == teams.len(),
        0 <= i < teams.len() ==> team_views(teams)[i] == (teams[i].key@, teams[i].name@),
        issue_views(issues).len() == issues.len(),
        0 <= i < issues.len() ==> issue_views(issues)[i] == (
            issues[i].identifier@,
            issues[i].title@,
        ),
        error_models(errors).len() == errors.len(),
        0 <= i < errors.len() ==> error_models(errors)[i] == errors[i].message@,
        request@.method == request.method@,
        request@.url == request.url@,
        request@.headers == request.headers.deep_view(),
        request@.body == request.body@,
        LinearLoad::Send(request)@ == LinearLoadModel::Send(request@),
        LinearLoad::Show(context)@ == LinearLoadModel::Show(context@),
        (KeychainChange::Store { url: text, username: text, password: bytes })@ == (
        KeychainChangeModel::Store { url: text@, username: text@, password: bytes@ }),
        (KeychainChange::Delete { url: text })@ == (KeychainChangeModel::Delete { url: text@ }),
        optional_change(None) is None,
        optional_change(Some(KeychainChange::Delete { url: text })) == Some(
            KeychainChangeModel::Delete { url: text@ },
        ),
        record_bytes(None) is None,
        record_bytes(Some(bytes)) == Some(bytes@),
{
}

} // verus!
