use vstd::prelude::*;
use crate::action::{
    cancelled, fail_cancelled, fail_unexpected, unexpected_event, Action, ActionView, Event,
    EventView,
};
use crate::error::{Error, ErrorKind, ErrorView};
use crate::exec::ExecIn;
use crate::helpers::{list_vault_pods, Flavor};
use crate::http::{
    get_unseal_keys_request, get_unseal_keys_request_view, is_redirection, is_success,
    status_is_redirection, status_is_success, unseal_request, unseal_request_view, VaultRequest,
    VaultRequestView, VaultResponse, VaultResponseView,
};
use crate::json::{found_view, json_document, json_get, json_parse, text_of, Json, JsonView};
use crate::secret::Secret;
use crate::status::{protocol_error, protocol_failure};
use crate::text::{join2, lines, lines_of, text_eq};
use crate::version::naming_error;

verus! {

/// How far the unsealing of one member has come.
#[derive(Clone, Copy, Debug, PartialEq, Eq, Structural)]
pub enum UnsealProgress {
    /// The key at this position has been submitted and not been answered yet. The keys
    /// before it have been accepted.
    Submitting(usize),
    /// Every key has been accepted.
    Done,
    /// The unsealing has failed.
    Failed,
}

/// Whether a response accepts a submitted key: its status is a success or a redirection.
pub open spec fn key_accepted(response: VaultResponseView) -> bool {
    status_is_success(response.status) || status_is_redirection(response.status)
}

/// The failure of an unsealing without keys.
pub open spec fn no_keys() -> ErrorView {
    ErrorView { kind: ErrorKind::Protocol, message: "no keys provided"@ }
}

/// The action that submits the key at position `at`.
pub open spec fn submit(flavor: Flavor, keys: Seq<Seq<char>>, at: int) -> ActionView {
    ActionView::Send { request: unseal_request_view(flavor, keys[at]) }
}

/// How the unsealing of a member begins: with the submission of the first key, or, where
/// there is no key, with a failure.
pub open spec fn unseal_first(flavor: Flavor, keys: Seq<Seq<char>>) -> (
    UnsealProgress,
    ActionView,
) {
    if keys.len() == 0 {
        (UnsealProgress::Failed, ActionView::Fail { error: no_keys() })
    } else {
        (UnsealProgress::Submitting(0), submit(flavor, keys, 0))
    }
}

/// How the unsealing of a member goes on after an event.
///
/// While a key is submitted: a response that accepts it has the next key submitted, or
/// ends the unsealing where it was the last; any other response fails the unsealing with
/// the body of the response, and so does a failure to send, a cancellation, and any other
/// event. Once the unsealing has ended, every event fails it.
pub open spec fn unseal_after(
    flavor: Flavor,
    keys: Seq<Seq<char>>,
    progress: UnsealProgress,
    event: EventView,
) -> (UnsealProgress, ActionView) {
    match progress {
        UnsealProgress::Submitting(at) => if at < keys.len() {
            match event {
                EventView::Response(response) => if key_accepted(response) {
                    if at + 1 < keys.len() {
                        (
                            UnsealProgress::Submitting((at + 1) as usize),
                            submit(flavor, keys, at + 1),
                        )
                    } else {
                        (UnsealProgress::Done, ActionView::Done)
                    }
                } else {
                    (
                        UnsealProgress::Failed,
                        ActionView::Fail { error: protocol_error("unsealing"@, response.body) },
                    )
                },
                EventView::Failed(cause) => (
                    UnsealProgress::Failed,
                    ActionView::Fail {
                        error: ErrorView { kind: ErrorKind::Channel, message: cause },
                    },
                ),
                EventView::Cancelled => (
                    UnsealProgress::Failed,
                    ActionView::Fail { error: cancelled() },
                ),
                _ => (UnsealProgress::Failed, ActionView::Fail { error: unexpected_event() }),
            }
        } else {
            (UnsealProgress::Failed, ActionView::Fail { error: unexpected_event() })
        },
        _ => (UnsealProgress::Failed, ActionView::Fail { error: unexpected_event() }),
    }
}

/// Begins to unseal a member with the given keys, which are submitted in their order, one
/// at a time. Without keys the unsealing fails at once.
pub fn unseal(flavor: Flavor, keys: &[Secret]) -> (next: (UnsealProgress, Action))
    ensures
        (next.0, next.1@) == unseal_first(flavor, keys.deep_view()),
{
    if keys.len() == 0 {
        (
            UnsealProgress::Failed,
            Action::Fail { error: Error::new(ErrorKind::Protocol, "no keys provided") },
        )
    } else {
        (UnsealProgress::Submitting(0), Action::Send { request: unseal_request(flavor, &keys[0]) })
    }
}

/// Goes on with the unsealing of a member after an event.
pub fn unseal_next(
    flavor: Flavor,
    keys: &[Secret],
    progress: UnsealProgress,
    event: Event,
) -> (next: (UnsealProgress, Action))
    ensures
        (next.0, next.1@) == unseal_after(flavor, keys.deep_view(), progress, event@),
{
    match progress {
        UnsealProgress::Submitting(at) => {
            if at < keys.len() {
                match event {
                    Event::Response(response) => {
                        if is_success(response.status) || is_redirection(response.status) {
                            if at + 1 < keys.len() {
                                (
                                    UnsealProgress::Submitting(at + 1),
                                    Action::Send { request: unseal_request(flavor, &keys[at + 1]) },
                                )
                            } else {
                                (UnsealProgress::Done, Action::Done)
                            }
                        } else {
                            (
                                UnsealProgress::Failed,
                                Action::Fail {
                                    error: protocol_failure("unsealing", response.body.as_str()),
                                },
                            )
                        }
                    },
                    Event::Failed(cause) => (
                        UnsealProgress::Failed,
                        Action::Fail { error: Error { kind: ErrorKind::Channel, message: cause } },
                    ),
                    Event::Cancelled => (UnsealProgress::Failed, fail_cancelled()),
                    _ => (UnsealProgress::Failed, fail_unexpected()),
                }
            } else {
                (UnsealProgress::Failed, fail_unexpected())
            }
        },
        _ => (UnsealProgress::Failed, fail_unexpected()),
    }
}

/// The actions of an unsealing that has come as far as `progress` and is handed the given
/// events, one after the other: after each event the next action, up to the action that
/// ends the unsealing.
pub open spec fn unseal_actions_after(
    flavor: Flavor,
    keys: Seq<Seq<char>>,
    progress: UnsealProgress,
    events: Seq<EventView>,
) -> Seq<ActionView>
    decreases events.len(),
{
    if events.len() == 0 || !(progress is Submitting) {
        Seq::empty()
    } else {
        let next = unseal_after(flavor, keys, progress, events[0]);
        seq![next.1] + unseal_actions_after(flavor, keys, next.0, events.drop_first())
    }
}

/// The actions of an unsealing with the given keys that is handed the given events, one
/// after the other: its first action, then after each event the next, up to the action
/// that ends the unsealing.
pub open spec fn unseal_actions(
    flavor: Flavor,
    keys: Seq<Seq<char>>,
    events: Seq<EventView>,
) -> Seq<ActionView> {
    let first = unseal_first(flavor, keys);
    seq![first.1] + unseal_actions_after(flavor, keys, first.0, events)
}

/// Whether an event is a response that accepts a key.
pub open spec fn accepts(event: EventView) -> bool {
    event matches EventView::Response(response) && key_accepted(response)
}

proof fn lemma_unseal_actions_after(
    flavor: Flavor,
    keys: Seq<Seq<char>>,
    at: usize,
    events: Seq<EventView>,
)
    requires
        at < keys.len() <= usize::MAX,
    ensures
        ({
            let rest = unseal_actions_after(flavor, keys, UnsealProgress::Submitting(at), events);
            &&& rest.len() <= events.len()
            &&& rest.len() < events.len() ==> rest.len() > 0 && rest.last().is_final()
            &&& forall|k: int|
                0 <= k < rest.len() ==> {
                    &&& (#[trigger] rest[k]) is Send || rest[k] is Done || rest[k] is Fail
                    &&& rest[k] is Send ==> at + 1 + k < keys.len() && rest[k] == submit(
                        flavor,
                        keys,
                        at + 1 + k,
                    )
                    &&& rest[k] is Done ==> at + 1 + k == keys.len()
                    &&& rest[k].is_final() ==> k == rest.len() - 1
                    &&& !rest[k].is_final() ==> k + 1 < rest.len() || k + 1 == events.len()
                    &&& rest[k] is Fail <==> !accepts(events[k])
                }
        }),
    decreases events.len(),
{
    let progress = UnsealProgress::Submitting(at);
    let rest = unseal_actions_after(flavor, keys, progress, events);
    if events.len() > 0 {
        let next = unseal_after(flavor, keys, progress, events[0]);
        let tail = unseal_actions_after(flavor, keys, next.0, events.drop_first());
        assert(rest == seq![next.1] + tail);
        if next.0 is Submitting {
            lemma_unseal_actions_after(flavor, keys, (at + 1) as usize, events.drop_first());
            assert forall|k: int| 0 <= k < rest.len() implies {
                &&& (#[trigger] rest[k]) is Send || rest[k] is Done || rest[k] is Fail
                &&& rest[k] is Send ==> at + 1 + k < keys.len() && rest[k] == submit(
                    flavor,
                    keys,
                    at + 1 + k,
                )
                &&& rest[k] is Done ==> at + 1 + k == keys.len()
                &&& rest[k].is_final() ==> k == rest.len() - 1
                &&& !rest[k].is_final() ==> k + 1 < rest.len() || k + 1 == events.len()
                &&& rest[k] is Fail <==> !accepts(events[k])
            } by {
                if k > 0 {
                    assert(rest[k] == tail[k - 1]);
                    assert(events[k] == events.drop_first()[k - 1]);
                }
            }
            if tail.len() > 0 {
                assert(rest.last() == tail.last());
            }
        } else {
            assert(tail.len() == 0);
        }
    }
}

/// An unsealing submits the keys in their order, one at a time, and stops at the first
/// key that is not accepted.
///
/// Of the actions of an unsealing, whatever events it is handed: every action but the last
/// submits a key, and the action at position `i` that submits a key submits the key at
/// position `i`; a key is submitted only after every key before it has been accepted; the
/// unsealing ends well only when every key has been accepted; and it ends in failure
/// exactly after an event that does not accept the key that was submitted last, or at once
/// where there is no key.
pub proof fn unseal_is_ordered(flavor: Flavor, keys: Seq<Seq<char>>, events: Seq<EventView>)
    requires
        keys.len() <= usize::MAX,
    ensures
        ({
            let actions = unseal_actions(flavor, keys, events);
            &&& 1 <= actions.len() <= events.len() + 1
            &&& forall|i: int|
                0 <= i < actions.len() ==> {
                    &&& (#[trigger] actions[i]) is Send || actions[i] is Done || actions[i] is Fail
                    &&& actions[i] is Send ==> i < keys.len() && actions[i] == submit(
                        flavor,
                        keys,
                        i,
                    )
                    &&& actions[i] is Done ==> i == keys.len()
                    &&& actions[i].is_final() ==> i == actions.len() - 1
                    &&& !actions[i].is_final() ==> i + 1 < actions.len() || i == events.len()
                    &&& i > 0 ==> (actions[i] is Fail <==> !accepts(events[i - 1]))
                    &&& i == 0 ==> (actions[i] is Fail <==> keys.len() == 0)
                }
        }),
{
    let first = unseal_first(flavor, keys);
    let actions = unseal_actions(flavor, keys, events);
    let rest = unseal_actions_after(flavor, keys, first.0, events);
    if keys.len() > 0 {
        lemma_unseal_actions_after(flavor, keys, 0, events);
        assert forall|i: int| 0 <= i < actions.len() implies {
            &&& (#[trigger] actions[i]) is Send || actions[i] is Done || actions[i] is Fail
            &&& actions[i] is Send ==> i < keys.len() && actions[i] == submit(flavor, keys, i)
            &&& actions[i] is Done ==> i == keys.len()
            &&& actions[i].is_final() ==> i == actions.len() - 1
            &&& !actions[i].is_final() ==> i + 1 < actions.len() || i == events.len()
            &&& i > 0 ==> (actions[i] is Fail <==> !accepts(events[i - 1]))
            &&& i == 0 ==> (actions[i] is Fail <==> keys.len() == 0)
        } by {
            if i > 0 {
                assert(actions[i] == rest[i - 1]);
            }
        }
    } else {
        assert(rest.len() == 0);
    }
}

/// The keys that a text holds: its lines, each one key. An empty line is an empty key.
pub fn keys_from_lines(text: &str) -> (keys: Vec<Secret>)
    ensures
        keys.deep_view() == lines_of(text@),
{
    let mut found = lines(text);
    let ghost model = found.deep_view();
    let mut keys: Vec<Secret> = Vec::new();
    let mut i: usize = 0;
    while i < found.len()
        invariant
            i <= found.len(),
            keys.len() == i,
            model == found.deep_view(),
            forall|j: int| 0 <= j < i ==> (#[trigger] keys[j])@ == model[j],
        decreases found.len() - i,
    {
        assert(model[i as int] == found[i as int]@);
        keys.push(Secret::new(found[i].clone()));
        i = i + 1;
    }
    assert(keys.deep_view() =~= model);
    keys
}

/// The keys that a key command has written to its output: each line is one key.
pub fn get_unseal_keys(output: &str) -> (keys: Vec<Secret>)
    ensures
        keys.deep_view() == lines_of(output@),
{
    keys_from_lines(output)
}

/// The action that lists the sealed members of a cluster of the given flavor.
pub fn list_sealed_pods(flavor: &str) -> (action: Action)
    ensures
        action@ == (ActionView::List { label_selector: Some(ExecIn::Sealed.selector(flavor@)) }),
{
    let selector = ExecIn::Sealed.to_label_selector(flavor);
    Action::List { params: list_vault_pods(flavor).labels(selector.as_str()) }
}

/// The innermost part of the answer of a key-value store: the keys, one on each line.
#[derive(Debug, PartialEq, Eq)]
pub struct Data {
    pub keys: String,
}

/// The data of a secret and its metadata, of which only the data is read.
#[derive(Debug, PartialEq, Eq)]
pub struct DataMetadata {
    pub data: Data,
}

/// The answer of a key-value store to the request for the secret that holds the unseal
/// keys.
#[derive(Debug, PartialEq, Eq)]
pub struct Response {
    pub data: DataMetadata,
}

impl View for Response {
    type V = Seq<char>;

    /// The text of the keys.
    open spec fn view(&self) -> Seq<char> {
        self.data.data.keys@
    }
}

impl DeepView for Response {
    type V = Seq<char>;

    open spec fn deep_view(&self) -> Seq<char> {
        self@
    }
}

/// The text of the keys that a JSON value denotes as the answer of a key-value store: the
/// text of the member `keys` of the member `data` of its member `data`.
pub open spec fn stored_keys_of(value: JsonView) -> Option<Seq<char>> {
    match json_get(value, "data"@) {
        Some(outer) => match json_get(outer, "data"@) {
            Some(inner) => text_of(json_get(inner, "keys"@)),
            None => None,
        },
        None => None,
    }
}

impl Response {
    /// Reads the answer of a key-value store from a JSON value.
    pub fn from_json(value: &Json) -> (response: Option<Response>)
        ensures
            response.deep_view() == stored_keys_of(value@),
    {
        let outer = value.get("data")?;
        let inner = outer.get("data")?;
        let keys = inner.get("keys")?.as_text()?;
        Some(Response { data: DataMetadata { data: Data { keys: keys.clone() } } })
    }

    /// The keys of the answer: each line of its text is one key.
    pub fn keys(&self) -> (keys: Vec<Secret>)
        ensures
            keys.deep_view() == lines_of(self@),
    {
        keys_from_lines(self.data.data.keys.as_str())
    }
}

/// The model of the result of reading unseal keys.
pub open spec fn keys_view(result: Result<Vec<Secret>, Error>) -> Result<
    Seq<Seq<char>>,
    ErrorView,
> {
    match result {
        Ok(keys) => Ok(keys.deep_view()),
        Err(error) => Err(error@),
    }
}

/// What a response to the request for the unseal keys with the given status and body
/// says, where `document` is what the body denotes as JSON: the keys where the status is
/// 200 and the document denotes the answer of a key-value store, and a protocol error with
/// the body otherwise.
pub open spec fn unseal_keys_answer(
    status: u16,
    body: Seq<char>,
    document: Option<JsonView>,
) -> Result<Seq<Seq<char>>, ErrorView> {
    if status != 200 {
        Err(protocol_error("retrieving unseal keys"@, body))
    } else {
        match document {
            Some(value) => match stored_keys_of(value) {
                Some(text) => Ok(lines_of(text)),
                None => Err(protocol_error("decoding unseal keys"@, body)),
            },
            None => Err(protocol_error("decoding unseal keys"@, body)),
        }
    }
}

/// What a response to the request for the unseal keys says.
pub open spec fn unseal_keys_result(response: VaultResponseView) -> Result<
    Seq<Seq<char>>,
    ErrorView,
> {
    unseal_keys_answer(response.status, response.body, json_document(response.body))
}

/// Reads the answer to the request for the unseal keys, given its status, its body and the
/// JSON document that the body denotes.
pub fn read_unseal_keys(status: u16, body: &str, document: Option<&Json>) -> (result: Result<
    Vec<Secret>,
    Error,
>)
    ensures
        keys_view(result) == unseal_keys_answer(status, body@, found_view(document)),
{
    if status != 200 {
        return Err(protocol_failure("retrieving unseal keys", body));
    }
    match document {
        Some(value) => match Response::from_json(value) {
            Some(response) => Ok(response.keys()),
            None => Err(protocol_failure("decoding unseal keys", body)),
        },
        None => Err(protocol_failure("decoding unseal keys", body)),
    }
}

/// Reads the unseal keys out of the response to the request for them. Any status but 200
/// fails with a protocol error that holds the body, and so does a body that is no answer
/// of a key-value store. Whether a key is empty is left to the caller.
pub fn unseal_keys(response: &VaultResponse) -> (result: Result<Vec<Secret>, Error>)
    ensures
        keys_view(result) == unseal_keys_result(response@),
{
    let document = json_parse(response.body.as_str());
    read_unseal_keys(response.status, response.body.as_str(), document.as_ref())
}

/// The host and the port that an address names.
#[derive(Clone, Debug, PartialEq, Eq)]
pub struct Authority {
    pub host: String,
    pub port: Option<u16>,
}

/// The mathematical model of an [`Authority`].
pub struct AuthorityView {
    pub host: Seq<char>,
    pub port: Option<u16>,
}

impl View for Authority {
    type V = AuthorityView;

    open spec fn view(&self) -> AuthorityView {
        AuthorityView { host: self.host@, port: self.port }
    }
}

impl DeepView for Authority {
    type V = AuthorityView;

    open spec fn deep_view(&self) -> AuthorityView {
        self@
    }
}

/// An address, taken apart: its scheme, its authority, and its path with the query.
#[derive(Clone, Debug, PartialEq, Eq)]
pub struct Uri {
    pub scheme: Option<String>,
    pub authority: Option<Authority>,
    pub path_and_query: Option<String>,
}

/// The mathematical model of a [`Uri`].
pub struct UriView {
    pub scheme: Option<Seq<char>>,
    pub authority: Option<AuthorityView>,
    pub path_and_query: Option<Seq<char>>,
}

impl View for Uri {
    type V = UriView;

    open spec fn view(&self) -> UriView {
        UriView {
            scheme: self.scheme.deep_view(),
            authority: self.authority.deep_view(),
            path_and_query: self.path_and_query.deep_view(),
        }
    }
}

/// Where the secret that holds the unseal keys is fetched from: another engine, at the
/// given authority, reached by the given scheme.
pub struct GetUnsealKeysFromVault {
    pub scheme: String,
    pub authority: Authority,
}

/// The mathematical model of a [`GetUnsealKeysFromVault`].
pub struct GetUnsealKeysFromVaultView {
    pub scheme: Seq<char>,
    pub authority: AuthorityView,
}

impl View for GetUnsealKeysFromVault {
    type V = GetUnsealKeysFromVaultView;

    open spec fn view(&self) -> GetUnsealKeysFromVaultView {
        GetUnsealKeysFromVaultView { scheme: self.scheme@, authority: self.authority@ }
    }
}

/// The scheme by which the engine at an address is reached: the scheme of the address,
/// or, where it has none, `https` for the port 443 and `http` for any other.
pub open spec fn scheme_of(uri: UriView) -> Seq<char> {
    match uri.scheme {
        Some(scheme) => scheme,
        None => if uri.authority matches Some(authority) && authority.port == Some(443u16) {
            "https"@
        } else {
            "http"@
        },
    }
}

/// Where the keys are fetched from, for an address: the authority of the address and the
/// scheme by which it is reached. An address without an authority is refused.
pub open spec fn fetch_from(uri: UriView) -> Result<GetUnsealKeysFromVaultView, ErrorView> {
    match uri.authority {
        Some(authority) => Ok(GetUnsealKeysFromVaultView { scheme: scheme_of(uri), authority }),
        None => Err(naming_error("keys secret uri does not include an authority"@)),
    }
}

/// The port to which the stream is opened: that of the authority, or, where it names
/// none, 443 for `https` and 80 for any other scheme.
pub open spec fn port_of(from: GetUnsealKeysFromVaultView) -> u16 {
    match from.authority.port {
        Some(port) => port,
        None => if from.scheme == "https"@ {
            443
        } else {
            80
        },
    }
}

/// How far the fetching of the unseal keys has come.
pub enum KeyFetch {
    /// The stream is being opened.
    Dialing { request: VaultRequest },
    /// The channel is being opened over the stream.
    ShakingHands { request: VaultRequest },
    /// The request has been sent.
    Sending,
    /// The keys are there.
    Done(Vec<Secret>),
    /// The fetching has failed.
    Failed,
}

/// The mathematical model of a [`KeyFetch`].
pub enum KeyFetchView {
    Dialing { request: VaultRequestView },
    ShakingHands { request: VaultRequestView },
    Sending,
    Done(Seq<Seq<char>>),
    Failed,
}

impl View for KeyFetch {
    type V = KeyFetchView;

    open spec fn view(&self) -> KeyFetchView {
        match self {
            KeyFetch::Dialing { request } => KeyFetchView::Dialing { request: request@ },
            KeyFetch::ShakingHands { request } => KeyFetchView::ShakingHands { request: request@ },
            KeyFetch::Sending => KeyFetchView::Sending,
            KeyFetch::Done(keys) => KeyFetchView::Done(keys.deep_view()),
            KeyFetch::Failed => KeyFetchView::Failed,
        }
    }
}

/// The failure of the fetching.
pub open spec fn fetch_failed(error: ErrorView) -> (KeyFetchView, ActionView) {
    (KeyFetchView::Failed, ActionView::Fail { error })
}

/// The failure of the fetching over an event that does not carry what it waits for.
pub open spec fn fetch_failure(event: EventView) -> ErrorView {
    match event {
        EventView::Failed(cause) => ErrorView { kind: ErrorKind::Channel, message: cause },
        EventView::Cancelled => cancelled(),
        _ => unexpected_event(),
    }
}

/// How the fetching of the unseal keys begins: with opening a stream to the engine that
/// holds them.
pub open spec fn fetch_first(
    from: GetUnsealKeysFromVaultView,
    flavor: Flavor,
    path: Seq<char>,
    token: Seq<char>,
) -> (KeyFetchView, ActionView) {
    (
        KeyFetchView::Dialing { request: get_unseal_keys_request_view(flavor, path, token) },
        ActionView::Dial { host: from.authority.host, port: port_of(from) },
    )
}

/// How the fetching of the unseal keys goes on after an event.
///
/// Over the open stream a channel is opened: inside TLS, verified against the host, for
/// the scheme `https`, plain for `http`; any other scheme fails the fetching. Over the
/// channel the request for the keys is sent, and the response is read.
pub open spec fn fetch_after(
    from: GetUnsealKeysFromVaultView,
    fetch: KeyFetchView,
    event: EventView,
) -> (KeyFetchView, ActionView) {
    match fetch {
        KeyFetchView::Dialing { request } => match event {
            EventView::Completed => if from.scheme == "https"@ {
                (
                    KeyFetchView::ShakingHands { request },
                    ActionView::Handshake { server_name: Some(from.authority.host) },
                )
            } else if from.scheme == "http"@ {
                (
                    KeyFetchView::ShakingHands { request },
                    ActionView::Handshake { server_name: None },
                )
            } else {
                fetch_failed(
                    ErrorView {
                        kind: ErrorKind::Channel,
                        message: "unsupported scheme "@ + from.scheme,
                    },
                )
            },
            _ => fetch_failed(fetch_failure(event)),
        },
        KeyFetchView::ShakingHands { request } => match event {
            EventView::Completed => (KeyFetchView::Sending, ActionView::Send { request }),
            _ => fetch_failed(fetch_failure(event)),
        },
        KeyFetchView::Sending => match event {
            EventView::Response(response) => match unseal_keys_result(response) {
                Ok(keys) => (KeyFetchView::Done(keys), ActionView::Done),
                Err(error) => fetch_failed(error),
            },
            _ => fetch_failed(fetch_failure(event)),
        },
        _ => fetch_failed(unexpected_event()),
    }
}

/// The failure of the fetching over an event that does not carry what it waits for.
fn fail_fetch(event: Event) -> (next: (KeyFetch, Action))
    ensures
        (next.0@, next.1@) == fetch_failed(fetch_failure(event@)),
{
    match event {
        Event::Failed(cause) => (
            KeyFetch::Failed,
            Action::Fail { error: Error { kind: ErrorKind::Channel, message: cause } },
        ),
        Event::Cancelled => (KeyFetch::Failed, fail_cancelled()),
        _ => (KeyFetch::Failed, fail_unexpected()),
    }
}

impl GetUnsealKeysFromVault {
    /// Says where the keys are fetched from, for the address of the secret that holds
    /// them. An address without an authority is refused.
    pub fn new(uri: &Uri) -> (from: Result<GetUnsealKeysFromVault, Error>)
        ensures
            match from {
                Ok(value) => fetch_from(uri@) == Ok::<GetUnsealKeysFromVaultView, ErrorView>(
                    value@,
                ),
                Err(error) => fetch_from(uri@) == Err::<GetUnsealKeysFromVaultView, ErrorView>(
                    error@,
                ),
            },
    {
        let scheme = match &uri.scheme {
            Some(scheme) => scheme.clone(),
            None => match &uri.authority {
                Some(authority) => match authority.port {
                    Some(port) => if port == 443 {
                        String::from_str("https")
                    } else {
                        String::from_str("http")
                    },
                    None => String::from_str("http"),
                },
                None => String::from_str("http"),
            },
        };
        match &uri.authority {
            Some(authority) => Ok(
                GetUnsealKeysFromVault {
                    scheme,
                    authority: Authority { host: authority.host.clone(), port: authority.port },
                },
            ),
            None => Err(
                Error::new(ErrorKind::Naming, "keys secret uri does not include an authority"),
            ),
        }
    }

    /// The port to which the stream is opened.
    pub fn port(&self) -> (port: u16)
        ensures
            port == port_of(self@),
    {
        match self.authority.port {
            Some(port) => port,
            None => if text_eq(self.scheme.as_str(), "https") {
                443
            } else {
                80
            },
        }
    }

    /// Begins to fetch the unseal keys from the secret at the given path, and says what
    /// to do first.
    pub fn get_unseal_keys(&self, flavor: Flavor, path: &str, token: &Secret) -> (next: (
        KeyFetch,
        Action,
    ))
        ensures
            (next.0@, next.1@) == fetch_first(self@, flavor, path@, token@),
    {
        (
            KeyFetch::Dialing { request: get_unseal_keys_request(flavor, path, token) },
            Action::Dial { host: self.authority.host.clone(), port: self.port() },
        )
    }

    /// Goes on with the fetching of the unseal keys after an event, and says what to do
    /// next.
    pub fn get_unseal_keys_next(&self, fetch: KeyFetch, event: Event) -> (next: (KeyFetch, Action))
        ensures
            (next.0@, next.1@) == fetch_after(self@, fetch@, event@),
    {
        match fetch {
            KeyFetch::Dialing { request } => match event {
                Event::Completed => {
                    if text_eq(self.scheme.as_str(), "https") {
                        (
                            KeyFetch::ShakingHands { request },
                            Action::Handshake { server_name: Some(self.authority.host.clone()) },
                        )
                    } else if text_eq(self.scheme.as_str(), "http") {
                        (
                            KeyFetch::ShakingHands { request },
                            Action::Handshake { server_name: None },
                        )
                    } else {
                        (
                            KeyFetch::Failed,
                            Action::Fail {
                                error: Error {
                                    kind: ErrorKind::Channel,
                                    message: join2("unsupported scheme ", self.scheme.as_str()),
                                },
                            },
                        )
                    }
                },
                other => fail_fetch(other),
            },
            KeyFetch::ShakingHands { request } => match event {
                Event::Completed => (KeyFetch::Sending, Action::Send { request }),
                other => fail_fetch(other),
            },
            KeyFetch::Sending => match event {
                Event::Response(response) => match unseal_keys(&response) {
                    Ok(keys) => (KeyFetch::Done(keys), Action::Done),
                    Err(error) => (KeyFetch::Failed, Action::Fail { error }),
                },
                other => fail_fetch(other),
            },
            _ => (KeyFetch::Failed, fail_unexpected()),
        }
    }
}

/// Where the unseal keys come from.
#[derive(Debug, PartialEq, Eq)]
pub enum KeySource {
    /// From the secret at this address.
    SecretUri(String),
    /// From the output of this command.
    Command(String),
}

/// Decides where the unseal keys come from, given the address of a secret and a command, of
/// which either may be missing: from the secret where its address is given, else from the
/// command, and from nowhere where neither is given.
pub fn key_source(keys_secret_uri: Option<String>, key_cmd: Option<String>) -> (source: Result<
    KeySource,
    Error,
>)
    ensures
        match source {
            Ok(KeySource::SecretUri(uri)) => keys_secret_uri.deep_view() == Some(uri@),
            Ok(KeySource::Command(cmd)) => keys_secret_uri is None && key_cmd.deep_view() == Some(
                cmd@,
            ),
            Err(error) => keys_secret_uri is None && key_cmd is None && error@ == (ErrorView {
                kind: ErrorKind::Protocol,
                message: "no keys secret uri or key cmd specified"@,
            }),
        },
{
    match keys_secret_uri {
        Some(uri) => Ok(KeySource::SecretUri(uri)),
        None => match key_cmd {
            Some(cmd) => Ok(KeySource::Command(cmd)),
            None => Err(Error::new(ErrorKind::Protocol, "no keys secret uri or key cmd specified")),
        },
    }
}

/// The keys of a key command, where it has written any: a command without output is
/// refused.
pub fn command_keys(output: &str) -> (keys: Result<Vec<Secret>, Error>)
    ensures
        keys_view(keys) == if lines_of(output@).len() == 0 {
            Err::<Seq<Seq<char>>, ErrorView>(
                ErrorView {
                    kind: ErrorKind::Protocol,
                    message: "no unseal keys returned from command"@,
                },
            )
        } else {
            Ok::<Seq<Seq<char>>, ErrorView>(lines_of(output@))
        },
{
    let keys = get_unseal_keys(output);
    if keys.len() == 0 {
        Err(Error::new(ErrorKind::Protocol, "no unseal keys returned from command"))
    } else {
        Ok(keys)
    }
}

} // verus!
