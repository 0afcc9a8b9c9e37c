use vstd::prelude::*;
use crate::action::{
    cancelled, fail_cancelled, fail_unexpected, unexpected_event, Action, ActionView, Event,
    EventView,
};
use crate::error::{Error, ErrorKind, ErrorView};
use crate::helpers::{result_view, Flavor};
use crate::http::{
    init_request, init_request_view, raft_join_request, raft_join_request_view, VaultRequest,
    VaultRequestView, VaultResponse, VaultResponseView, VAULT_PORT,
};
use crate::json::{
    found_view, items_of, json_document, json_get, json_parse, json_quoted, json_string, text_of,
    Json, JsonView,
};
use crate::secret::Secret;
use crate::status::{protocol_error, protocol_failure};
use crate::text::{decimal, decimal_text, join3};
use crate::version::naming_error;

verus! {

/// What is asked of a cluster when it is initialized: into how many shares the key is
/// split and how many of them unseal, and the same for the recovery key.
#[derive(Debug, PartialEq, Eq)]
pub struct InitRequest {
    pub secret_shares: u8,
    pub secret_threshold: u8,
    pub stored_shares: u8,
    /// The keys to which the shares are encrypted, where they are.
    pub pgp_keys: Option<Vec<String>>,
    pub recovery_shares: u8,
    pub recovery_threshold: u8,
    /// The keys to which the recovery shares are encrypted, where they are.
    pub recovery_pgp_keys: Option<Vec<String>>,
    /// The key to which the root token is encrypted, or the empty text.
    pub root_token_pgp_key: String,
}

/// The mathematical model of an [`InitRequest`].
pub struct InitRequestView {
    pub secret_shares: u8,
    pub secret_threshold: u8,
    pub stored_shares: u8,
    pub pgp_keys: Option<Seq<Seq<char>>>,
    pub recovery_shares: u8,
    pub recovery_threshold: u8,
    pub recovery_pgp_keys: Option<Seq<Seq<char>>>,
    pub root_token_pgp_key: Seq<char>,
}

impl View for InitRequest {
    type V = InitRequestView;

    open spec fn view(&self) -> InitRequestView {
        InitRequestView {
            secret_shares: self.secret_shares,
            secret_threshold: self.secret_threshold,
            stored_shares: self.stored_shares,
            pgp_keys: self.pgp_keys.deep_view(),
            recovery_shares: self.recovery_shares,
            recovery_threshold: self.recovery_threshold,
            recovery_pgp_keys: self.recovery_pgp_keys.deep_view(),
            root_token_pgp_key: self.root_token_pgp_key@,
        }
    }
}

/// The request that is made where nothing else is asked: three shares of which two
/// unseal, no stored and no recovery shares, and nothing encrypted.
pub open spec fn default_init_request() -> InitRequestView {
    InitRequestView {
        secret_shares: 3,
        secret_threshold: 2,
        stored_shares: 0,
        pgp_keys: None,
        recovery_shares: 0,
        recovery_threshold: 0,
        recovery_pgp_keys: None,
        root_token_pgp_key: Seq::empty(),
    }
}

impl Default for InitRequest {
    fn default() -> (request: InitRequest)
        ensures
            request@ == default_init_request(),
    {
        InitRequest {
            secret_shares: 3,
            secret_threshold: 2,
            stored_shares: 0,
            pgp_keys: None,
            recovery_shares: 0,
            recovery_threshold: 0,
            recovery_pgp_keys: None,
            root_token_pgp_key: String::new(),
        }
    }
}

/// The first `count` of the given texts as JSON string literals, with commas between them.
pub open spec fn literals(texts: Seq<Seq<char>>, count: nat) -> Seq<char>
    decreases count,
{
    if count == 0 || count > texts.len() {
        Seq::empty()
    } else if count == 1 {
        json_quoted(texts[0])
    } else {
        literals(texts, (count - 1) as nat) + ","@ + json_quoted(texts[count - 1])
    }
}

/// A list of keys as JSON: `null` where there is none, else the array of the keys.
pub open spec fn key_list(keys: Option<Seq<Seq<char>>>) -> Seq<char> {
    match keys {
        None => "null"@,
        Some(texts) => "["@ + literals(texts, texts.len()) + "]"@,
    }
}

/// The body of the request that initializes a cluster: the JSON object of the request.
pub open spec fn init_body(request: InitRequestView) -> Seq<char> {
    "{\"secret_shares\":"@ + decimal_text(request.secret_shares as nat)
        + ",\"secret_threshold\":"@ + decimal_text(request.secret_threshold as nat)
        + ",\"stored_shares\":"@ + decimal_text(request.stored_shares as nat) + ",\"pgp_keys\":"@
        + key_list(request.pgp_keys) + ",\"recovery_shares\":"@ + decimal_text(
        request.recovery_shares as nat,
    ) + ",\"recovery_threshold\":"@ + decimal_text(request.recovery_threshold as nat)
        + ",\"recovery_pgp_keys\":"@ + key_list(request.recovery_pgp_keys)
        + ",\"root_token_pgp_key\":"@ + json_quoted(request.root_token_pgp_key) + "}"@
}

/// Writes a list of keys as JSON.
fn write_key_list(keys: &Option<Vec<String>>) -> (text: String)
    ensures
        text@ == key_list(keys.deep_view()),
{
    match keys {
        None => String::from_str("null"),
        Some(texts) => {
            let mut text = String::from_str("[");
            let ghost model = texts.deep_view();
            let mut written = String::new();
            let mut i: usize = 0;
            while i < texts.len()
                invariant
                    i <= texts.len(),
                    model == texts.deep_view(),
                    written@ == literals(model, i as nat),
                decreases texts.len() - i,
            {
                assert(model[i as int] == texts[i as int]@);
                let literal = json_string(texts[i].as_str());
                if i > 0 {
                    written.append(",");
                }
                written.append(literal.as_str());
                i = i + 1;
            }
            text.append(written.as_str());
            text.append("]");
            text
        },
    }
}

impl InitRequest {
    /// The body of the request that initializes a cluster as this request asks.
    pub fn body(&self) -> (body: String)
        ensures
            body@ == init_body(self@),
    {
        let mut body = String::from_str("{\"secret_shares\":");
        body.append(decimal(self.secret_shares as u64).as_str());
        body.append(",\"secret_threshold\":");
        body.append(decimal(self.secret_threshold as u64).as_str());
        body.append(",\"stored_shares\":");
        body.append(decimal(self.stored_shares as u64).as_str());
        body.append(",\"pgp_keys\":");
        body.append(write_key_list(&self.pgp_keys).as_str());
        body.append(",\"recovery_shares\":");
        body.append(decimal(self.recovery_shares as u64).as_str());
        body.append(",\"recovery_threshold\":");
        body.append(decimal(self.recovery_threshold as u64).as_str());
        body.append(",\"recovery_pgp_keys\":");
        body.append(write_key_list(&self.recovery_pgp_keys).as_str());
        body.append(",\"root_token_pgp_key\":");
        body.append(json_string(self.root_token_pgp_key.as_str()).as_str());
        body.append("}");
        body
    }
}

/// What the initialization of a cluster hands out, once: the unseal keys, in their order,
/// the same keys in base64, and the root token. All of them are secrets.
#[derive(Clone, Debug)]
pub struct InitResult {
    pub keys: Vec<Secret>,
    pub keys_base64: Vec<Secret>,
    pub root_token: Secret,
}

/// The mathematical model of an [`InitResult`].
pub struct InitResultView {
    pub keys: Seq<Seq<char>>,
    pub keys_base64: Seq<Seq<char>>,
    pub root_token: Seq<char>,
}

impl View for InitResult {
    type V = InitResultView;

    open spec fn view(&self) -> InitResultView {
        InitResultView {
            keys: self.keys.deep_view(),
            keys_base64: self.keys_base64.deep_view(),
            root_token: self.root_token@,
        }
    }
}

impl DeepView for InitResult {
    type V = InitResultView;

    open spec fn deep_view(&self) -> InitResultView {
        self@
    }
}

/// The texts that a sequence of JSON values denotes, where each of them is a text.
pub open spec fn texts_of(items: Seq<JsonView>) -> Option<Seq<Seq<char>>> {
    if forall|i: int| 0 <= i < items.len() ==> (#[trigger] items[i]) is Text {
        Some(Seq::new(items.len(), |i: int| items[i]->Text_0))
    } else {
        None
    }
}

/// The texts that the member `name` of a value holds, where it holds an array of texts.
pub open spec fn texts_member(value: JsonView, name: Seq<char>) -> Option<Seq<Seq<char>>> {
    match items_of(json_get(value, name)) {
        Some(items) => texts_of(items),
        None => None,
    }
}

/// The result of an initialization that a JSON value denotes: an object with the keys,
/// the keys in base64 and the root token.
pub open spec fn init_result_of(value: JsonView) -> Option<InitResultView> {
    let keys = texts_member(value, "keys"@);
    let keys_base64 = texts_member(value, "keys_base64"@);
    let root_token = text_of(json_get(value, "root_token"@));
    if keys is Some && keys_base64 is Some && root_token is Some {
        Some(
            InitResultView {
                keys: keys->0,
                keys_base64: keys_base64->0,
                root_token: root_token->0,
            },
        )
    } else {
        None
    }
}

/// Reads the secrets that the member `name` of a value holds.
fn secrets_member(value: &Json, name: &str) -> (secrets: Option<Vec<Secret>>)
    ensures
        secrets.deep_view() == texts_member(value@, name@),
{
    let items = value.get(name)?.as_array()?;
    let mut secrets: Vec<Secret> = Vec::new();
    let mut i: usize = 0;
    while i < items.len()
        invariant
            i <= items.len(),
            secrets.len() == i,
            items_of(json_get(value@, name@)) == Some(items.deep_view()),
            forall|j: int|
                0 <= j < i ==> (#[trigger] items.deep_view()[j]) == JsonView::Text(secrets[j]@),
        decreases items.len() - i,
    {
        assert(items.deep_view()[i as int] == items[i as int]@);
        match items[i].as_text() {
            Some(text) => {
                secrets.push(Secret::new(text.clone()));
            },
            None => {
                assert(!(items.deep_view()[i as int] is Text));
                return None;
            },
        }
        i = i + 1;
    }
    assert(secrets.deep_view() =~= texts_of(items.deep_view())->0);
    Some(secrets)
}

impl InitResult {
    /// Reads the result of an initialization from a JSON value.
    pub fn from_json(value: &Json) -> (result: Option<InitResult>)
        ensures
            result.deep_view() == init_result_of(value@),
    {
        let keys = secrets_member(value, "keys")?;
        let keys_base64 = secrets_member(value, "keys_base64")?;
        let root_token = match value.get("root_token") {
            Some(member) => match member.as_text() {
                Some(text) => Secret::new(text.clone()),
                None => {
                    return None;
                },
            },
            None => {
                return None;
            },
        };
        Some(InitResult { keys, keys_base64, root_token })
    }
}

/// The model of the result of reading the answer to an initialization.
pub open spec fn init_result_view(result: Result<InitResult, Error>) -> Result<
    InitResultView,
    ErrorView,
> {
    match result {
        Ok(value) => Ok(value@),
        Err(error) => Err(error@),
    }
}

/// What a response to an initialization with the given status and body says, where
/// `document` is what the body denotes as JSON and `refusal` is the failure that a status
/// other than 200 means.
pub open spec fn init_answer(
    status: u16,
    body: Seq<char>,
    document: Option<JsonView>,
    refusal: ErrorView,
) -> Result<InitResultView, ErrorView> {
    if status != 200 {
        Err(refusal)
    } else {
        match document {
            Some(value) => match init_result_of(value) {
                Some(result) => Ok(result),
                None => Err(protocol_error("decoding init result"@, body)),
            },
            None => Err(protocol_error("decoding init result"@, body)),
        }
    }
}

/// Reads the answer to an initialization, given its status, its body, the JSON document
/// that the body denotes, and the failure that a status other than 200 means.
pub fn read_init_result(
    status: u16,
    body: &str,
    document: Option<&Json>,
    refusal: Error,
) -> (result: Result<InitResult, Error>)
    ensures
        init_result_view(result) == init_answer(status, body@, found_view(document), refusal@),
{
    if status != 200 {
        return Err(refusal);
    }
    match document {
        Some(value) => match InitResult::from_json(value) {
            Some(result) => Ok(result),
            None => Err(protocol_failure("decoding init result", body)),
        },
        None => Err(protocol_failure("decoding init result", body)),
    }
}

/// What the response to an initialization says: the result where the status is 200 and
/// the body denotes one, and a protocol error with the body otherwise.
pub open spec fn init_result(response: VaultResponseView) -> Result<InitResultView, ErrorView> {
    init_answer(
        response.status,
        response.body,
        json_document(response.body),
        protocol_error("initializing"@, response.body),
    )
}

/// Reads the response to the request that initializes a cluster.
pub fn init_response(response: &VaultResponse) -> (result: Result<InitResult, Error>)
    ensures
        init_result_view(result) == init_result(response@),
{
    let document = json_parse(response.body.as_str());
    let refusal = protocol_failure("initializing", response.body.as_str());
    read_init_result(response.status, response.body.as_str(), document.as_ref(), refusal)
}

/// The body of the request that joins a member to the Raft cluster of the given leader:
/// the JSON object with the one member `leader_api_addr`.
pub open spec fn raft_join_body(join_to: Seq<char>) -> Seq<char> {
    "{\"leader_api_addr\":"@ + json_quoted(join_to) + "}"@
}

/// The request that joins a member to the Raft cluster of the given leader.
pub fn raft_join_to(flavor: Flavor, join_to: &str) -> (request: VaultRequest)
    ensures
        request@ == raft_join_request_view(flavor, raft_join_body(join_to@)),
{
    let literal = json_string(join_to);
    raft_join_request(flavor, join3("{\"leader_api_addr\":", literal.as_str(), "}"))
}

/// What the response to a Raft-join request says: the member has joined where the status
/// is 200, and any other status is a protocol error with the body.
pub open spec fn raft_join_result(response: VaultResponseView) -> Result<(), ErrorView> {
    if response.status == 200 {
        Ok(())
    } else {
        Err(protocol_error("raft-joining"@, response.body))
    }
}

/// Reads the response to a Raft-join request. Only the status 200 is a success.
pub fn raft_join_response(response: &VaultResponse) -> (result: Result<(), Error>)
    ensures
        result_view(result) == raft_join_result(response@),
{
    if response.status == 200 {
        Ok(())
    } else {
        Err(protocol_failure("raft-joining", response.body.as_str()))
    }
}

/// The state of one request to a named member: the member is read, a channel to it is
/// opened inside TLS, the request is sent over it, and the response is awaited.
pub enum PodCall {
    /// The member is being read. The request waits to be sent.
    Getting { domain: String, request: VaultRequest },
    /// The channel is being opened. The request waits to be sent.
    Connecting { request: VaultRequest },
    /// The request has been sent.
    Sending,
    /// The member has answered with status 200.
    Done,
    /// The call has failed.
    Failed,
}

/// The mathematical model of a [`PodCall`].
pub enum PodCallView {
    Getting { domain: Seq<char>, request: VaultRequestView },
    Connecting { request: VaultRequestView },
    Sending,
    Done,
    Failed,
}

impl View for PodCall {
    type V = PodCallView;

    open spec fn view(&self) -> PodCallView {
        match self {
            PodCall::Getting { domain, request } => PodCallView::Getting {
                domain: domain@,
                request: request@,
            },
            PodCall::Connecting { request } => PodCallView::Connecting { request: request@ },
            PodCall::Sending => PodCallView::Sending,
            PodCall::Done => PodCallView::Done,
            PodCall::Failed => PodCallView::Failed,
        }
    }
}

/// The failure of a call.
pub open spec fn call_failed(error: ErrorView) -> (PodCallView, ActionView) {
    (PodCallView::Failed, ActionView::Fail { error })
}

/// The failure of a call over an event that does not carry what the call waits for: the
/// failure of the action, of the kind that the phase gives it, a cancellation, or an event
/// that is no answer.
pub open spec fn call_failure(kind: ErrorKind, event: EventView) -> ErrorView {
    match event {
        EventView::Failed(cause) => ErrorView { kind, message: cause },
        EventView::Cancelled => cancelled(),
        _ => unexpected_event(),
    }
}

/// How a call begins: with reading the member.
pub open spec fn call_first(domain: Seq<char>, pod_name: Seq<char>, request: VaultRequestView) -> (
    PodCallView,
    ActionView,
) {
    (PodCallView::Getting { domain, request }, ActionView::Get { member: pod_name })
}

/// How a call goes on after an event.
///
/// Once the member is read, a channel to it is opened, inside TLS that is verified against
/// the domain; a member without a name fails the call. Once the channel is open, the
/// request is sent. A response with status 200 ends the call well; any other fails it, with
/// the body as the message.
pub open spec fn call_after(call: PodCallView, event: EventView) -> (PodCallView, ActionView) {
    match call {
        PodCallView::Getting { domain, request } => match event {
            EventView::Member(pod) => match pod.name {
                None => call_failed(naming_error("pod does not have a name"@)),
                Some(name) => (
                    PodCallView::Connecting { request },
                    ActionView::Connect {
                        member: name,
                        port: VAULT_PORT,
                        server_name: Some(domain),
                        attempts: 1,
                        base_delay_millis: 0,
                    },
                ),
            },
            _ => call_failed(call_failure(ErrorKind::WaitCondition, event)),
        },
        PodCallView::Connecting { request } => match event {
            EventView::Completed => (PodCallView::Sending, ActionView::Send { request }),
            _ => call_failed(call_failure(ErrorKind::Channel, event)),
        },
        PodCallView::Sending => match event {
            EventView::Response(response) => if response.status == 200 {
                (PodCallView::Done, ActionView::Done)
            } else {
                call_failed(ErrorView { kind: ErrorKind::Protocol, message: response.body })
            },
            _ => call_failed(call_failure(ErrorKind::Channel, event)),
        },
        _ => call_failed(unexpected_event()),
    }
}

/// The failure of a call over an event that does not carry what the call waits for.
fn fail_call(kind: ErrorKind, event: Event) -> (next: (PodCall, Action))
    ensures
        (next.0@, next.1@) == call_failed(call_failure(kind, event@)),
{
    match event {
        Event::Failed(cause) => (
            PodCall::Failed,
            Action::Fail { error: Error { kind, message: cause } },
        ),
        Event::Cancelled => (PodCall::Failed, fail_cancelled()),
        _ => (PodCall::Failed, fail_unexpected()),
    }
}

impl PodCall {
    /// Begins a call of the named member.
    pub fn begin(domain: String, pod_name: &str, request: VaultRequest) -> (next: (PodCall, Action))
        ensures
            (next.0@, next.1@) == call_first(domain@, pod_name@, request@),
    {
        (PodCall::Getting { domain, request }, Action::Get { member: String::from_str(pod_name) })
    }

    /// Goes on with a call after an event.
    pub fn next(self, event: Event) -> (next: (PodCall, Action))
        ensures
            (next.0@, next.1@) == call_after(self@, event@),
    {
        match self {
            PodCall::Getting { domain, request } => match event {
                Event::Member(pod) => match pod.name {
                    None => (
                        PodCall::Failed,
                        Action::Fail {
                            error: Error::new(ErrorKind::Naming, "pod does not have a name"),
                        },
                    ),
                    Some(name) => (
                        PodCall::Connecting { request },
                        Action::Connect {
                            member: name,
                            port: VAULT_PORT,
                            server_name: Some(domain),
                            attempts: 1,
                            base_delay_millis: 0,
                        },
                    ),
                },
                other => fail_call(ErrorKind::WaitCondition, other),
            },
            PodCall::Connecting { request } => match event {
                Event::Completed => (PodCall::Sending, Action::Send { request }),
                other => fail_call(ErrorKind::Channel, other),
            },
            PodCall::Sending => match event {
                Event::Response(response) => {
                    if response.status == 200 {
                        (PodCall::Done, Action::Done)
                    } else {
                        (
                            PodCall::Failed,
                            Action::Fail {
                                error: Error { kind: ErrorKind::Protocol, message: response.body },
                            },
                        )
                    }
                },
                other => fail_call(ErrorKind::Channel, other),
            },
            _ => (PodCall::Failed, fail_unexpected()),
        }
    }
}

/// The state of the initialization of a cluster through one of its members.
pub enum InitRun {
    /// The member is being called.
    Calling(PodCall),
    /// The cluster is initialized: this is what it handed out.
    Done(InitResult),
    /// The initialization has failed.
    Failed,
}

/// The mathematical model of an [`InitRun`].
pub enum InitRunView {
    Calling(PodCallView),
    Done(InitResultView),
    Failed,
}

impl View for InitRun {
    type V = InitRunView;

    open spec fn view(&self) -> InitRunView {
        match self {
            InitRun::Calling(call) => InitRunView::Calling(call@),
            InitRun::Done(result) => InitRunView::Done(result@),
            InitRun::Failed => InitRunView::Failed,
        }
    }
}

/// How the call that an initialization makes goes on.
pub open spec fn init_calling(next: (PodCallView, ActionView)) -> (InitRunView, ActionView) {
    if next.0 is Failed {
        (InitRunView::Failed, next.1)
    } else {
        (InitRunView::Calling(next.0), next.1)
    }
}

/// How the initialization of a cluster through the named member begins: with a call that
/// carries the request that is made where nothing else is asked.
pub open spec fn init_first(flavor: Flavor, domain: Seq<char>, pod_name: Seq<char>) -> (
    InitRunView,
    ActionView,
) {
    init_calling(
        call_first(domain, pod_name, init_request_view(flavor, init_body(default_init_request()))),
    )
}

/// How the initialization of a cluster goes on after an event: as its call does, but that
/// a response with status 200 must denote the result of the initialization, which is then
/// kept.
pub open spec fn init_after(run: InitRunView, event: EventView) -> (InitRunView, ActionView) {
    match run {
        InitRunView::Calling(call) => match (call, event) {
            (PodCallView::Sending, EventView::Response(response)) => match init_answer(
                response.status,
                response.body,
                json_document(response.body),
                ErrorView { kind: ErrorKind::Protocol, message: response.body },
            ) {
                Ok(result) => (InitRunView::Done(result), ActionView::Done),
                Err(error) => (InitRunView::Failed, ActionView::Fail { error }),
            },
            _ => init_calling(call_after(call, event)),
        },
        _ => (InitRunView::Failed, ActionView::Fail { error: unexpected_event() }),
    }
}

/// How the call that an initialization makes goes on.
fn init_call(next: (PodCall, Action)) -> (run: (InitRun, Action))
    ensures
        (run.0@, run.1@) == init_calling((next.0@, next.1@)),
{
    match next.0 {
        PodCall::Failed => (InitRun::Failed, next.1),
        call => (InitRun::Calling(call), next.1),
    }
}

/// Begins the initialization of a cluster through the named member, and says what to do
/// first.
pub fn init(flavor: Flavor, domain: String, pod_name: &str) -> (next: (InitRun, Action))
    ensures
        (next.0@, next.1@) == init_first(flavor, domain@, pod_name@),
{
    let request = init_request(flavor, InitRequest::default().body());
    init_call(PodCall::begin(domain, pod_name, request))
}

/// Goes on with the initialization of a cluster after an event, and says what to do next.
pub fn init_next(run: InitRun, event: Event) -> (next: (InitRun, Action))
    ensures
        (next.0@, next.1@) == init_after(run@, event@),
{
    match run {
        InitRun::Calling(call) => match (call, event) {
            (PodCall::Sending, Event::Response(response)) => {
                let document = json_parse(response.body.as_str());
                let status = response.status;
                let answer = read_init_result(
                    status,
                    response.body.as_str(),
                    document.as_ref(),
                    Error { kind: ErrorKind::Protocol, message: response.body.clone() },
                );
                match answer {
                    Ok(result) => (InitRun::Done(result), Action::Done),
                    Err(error) => (InitRun::Failed, Action::Fail { error }),
                }
            },
            (call, event) => init_call(call.next(event)),
        },
        _ => (InitRun::Failed, fail_unexpected()),
    }
}

/// How the joining of the named member to the Raft cluster of the given leader begins:
/// with a call that carries the join request.
pub open spec fn raft_join_first(
    flavor: Flavor,
    domain: Seq<char>,
    pod_name: Seq<char>,
    join_to: Seq<char>,
) -> (PodCallView, ActionView) {
    call_first(domain, pod_name, raft_join_request_view(flavor, raft_join_body(join_to)))
}

/// Begins to join the named member to the Raft cluster of the given leader, and says what
/// to do first. The call goes on by [`PodCall::next`].
pub fn raft_join(flavor: Flavor, domain: String, pod_name: &str, join_to: &str) -> (next: (
    PodCall,
    Action,
))
    ensures
        (next.0@, next.1@) == raft_join_first(flavor, domain@, pod_name@, join_to@),
{
    PodCall::begin(domain, pod_name, raft_join_to(flavor, join_to))
}

} // verus!
