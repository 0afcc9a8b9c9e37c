use vstd::prelude::*;
use crate::helpers::Flavor;
use crate::json::{json_quoted, json_string};
use crate::secret::Secret;
use crate::text::join3;

verus! {

/// The port on which every member serves its API.
pub const VAULT_PORT: u16 = 8200;

/// The method of a request.
#[derive(Clone, Copy, Debug, PartialEq, Eq, Structural)]
pub enum Method {
    Get,
    Put,
    Post,
}

/// One header of a request. Header names do not distinguish upper from lower case.
#[derive(Clone, Debug, PartialEq, Eq)]
pub struct Header {
    pub name: String,
    pub value: String,
}

/// The mathematical model of a [`Header`].
pub struct HeaderView {
    pub name: Seq<char>,
    pub value: Seq<char>,
}

impl View for Header {
    type V = HeaderView;

    open spec fn view(&self) -> HeaderView {
        HeaderView { name: self.name@, value: self.value@ }
    }
}

impl DeepView for Header {
    type V = HeaderView;

    open spec fn deep_view(&self) -> HeaderView {
        self@
    }
}

/// One request to the API of a member: what is written to the channel.
///
/// A request with a token holds the token in the clear, as it must be sent. It has no
/// `Debug` output for that reason.
#[derive(Clone, PartialEq, Eq)]
pub struct VaultRequest {
    pub method: Method,
    pub path: String,
    pub headers: Vec<Header>,
    pub body: String,
}

/// The mathematical model of a [`VaultRequest`].
pub struct VaultRequestView {
    pub method: Method,
    pub path: Seq<char>,
    pub headers: Seq<HeaderView>,
    pub body: Seq<char>,
}

impl View for VaultRequest {
    type V = VaultRequestView;

    open spec fn view(&self) -> VaultRequestView {
        VaultRequestView {
            method: self.method,
            path: self.path@,
            headers: self.headers.deep_view(),
            body: self.body@,
        }
    }
}

impl DeepView for VaultRequest {
    type V = VaultRequestView;

    open spec fn deep_view(&self) -> VaultRequestView {
        self@
    }
}

/// One response of a member: its status and its body, read to the end.
#[derive(Clone, Debug, PartialEq, Eq)]
pub struct VaultResponse {
    pub status: u16,
    pub body: String,
}

/// The mathematical model of a [`VaultResponse`].
pub struct VaultResponseView {
    pub status: u16,
    pub body: Seq<char>,
}

impl View for VaultResponse {
    type V = VaultResponseView;

    open spec fn view(&self) -> VaultResponseView {
        VaultResponseView { status: self.status, body: self.body@ }
    }
}

impl DeepView for VaultResponse {
    type V = VaultResponseView;

    open spec fn deep_view(&self) -> VaultResponseView {
        self@
    }
}

/// Whether a status says that the request succeeded: 200 to 299.
pub open spec fn status_is_success(status: u16) -> bool {
    200 <= status <= 299
}

/// Whether a status redirects: 300 to 399.
pub open spec fn status_is_redirection(status: u16) -> bool {
    300 <= status <= 399
}

/// Whether a status says that the request succeeded.
pub fn is_success(status: u16) -> (success: bool)
    ensures
        success == status_is_success(status),
{
    200 <= status && status <= 299
}

/// Whether a status redirects.
pub fn is_redirection(status: u16) -> (redirection: bool)
    ensures
        redirection == status_is_redirection(status),
{
    300 <= status && status <= 399
}

/// The name of the header that marks a request as meant for the engine.
pub open spec fn request_header_name(flavor: Flavor) -> Seq<char> {
    "X-"@ + flavor.name() + "-Request"@
}

/// The name of the header that carries the token.
pub open spec fn token_header_name(flavor: Flavor) -> Seq<char> {
    "X-"@ + flavor.name() + "-Token"@
}

/// The headers of every request: the fixed host, and the marker of the flavor.
pub open spec fn plain_headers(flavor: Flavor) -> Seq<HeaderView> {
    seq![
        HeaderView { name: "Host"@, value: "127.0.0.1"@ },
        HeaderView { name: request_header_name(flavor), value: "true"@ },
    ]
}

/// The headers of an authenticated request: those of every request, then the token.
pub open spec fn token_headers(flavor: Flavor, token: Seq<char>) -> Seq<HeaderView> {
    plain_headers(flavor).push(HeaderView { name: token_header_name(flavor), value: token })
}

/// The request with the given method, path and body and the headers of every request.
pub open spec fn plain_request(
    flavor: Flavor,
    method: Method,
    path: Seq<char>,
    body: Seq<char>,
) -> VaultRequestView {
    VaultRequestView { method, path, headers: plain_headers(flavor), body }
}

/// The authenticated request with the given method, path and body.
pub open spec fn token_request(
    flavor: Flavor,
    token: Seq<char>,
    method: Method,
    path: Seq<char>,
    body: Seq<char>,
) -> VaultRequestView {
    VaultRequestView { method, path, headers: token_headers(flavor, token), body }
}

/// Builds a request without a token.
pub fn vault_request(flavor: Flavor, method: Method, path: &str, body: String) -> (request:
    VaultRequest)
    ensures
        request@ == plain_request(flavor, method, path@, body@),
{
    let name = flavor.to_string();
    let mut headers: Vec<Header> = Vec::new();
    headers.push(Header { name: String::from_str("Host"), value: String::from_str("127.0.0.1") });
    headers.push(
        Header {
            name: join3("X-", name.as_str(), "-Request"),
            value: String::from_str("true"),
        },
    );
    let request = VaultRequest { method, path: String::from_str(path), headers, body };
    assert(request@.headers =~= plain_headers(flavor));
    request
}

/// Builds a request that carries the token.
pub fn vault_request_with_token(
    flavor: Flavor,
    token: &Secret,
    method: Method,
    path: &str,
    body: String,
) -> (request: VaultRequest)
    ensures
        request@ == token_request(flavor, token@, method, path@, body@),
{
    let name = flavor.to_string();
    let mut request = vault_request(flavor, method, path, body);
    request.headers.push(
        Header {
            name: join3("X-", name.as_str(), "-Token"),
            value: token.expose_secret().clone(),
        },
    );
    assert(request@.headers =~= token_headers(flavor, token@));
    request
}

/// The request that asks a member for its seal status.
pub open spec fn seal_status_request_view(flavor: Flavor) -> VaultRequestView {
    plain_request(flavor, Method::Get, "/v1/sys/seal-status"@, Seq::empty())
}

/// The request that asks a member for its seal status.
pub fn seal_status_request(flavor: Flavor) -> (request: VaultRequest)
    ensures
        request@ == seal_status_request_view(flavor),
{
    vault_request(flavor, Method::Get, "/v1/sys/seal-status", String::new())
}

/// The body that submits one unseal key.
pub open spec fn unseal_body(key: Seq<char>) -> Seq<char> {
    "{\"key\":"@ + json_quoted(key) + ",\"migrate\":false,\"reset\":false}"@
}

/// The request that submits one unseal key.
pub open spec fn unseal_request_view(flavor: Flavor, key: Seq<char>) -> VaultRequestView {
    plain_request(flavor, Method::Put, "/v1/sys/unseal"@, unseal_body(key))
}

/// The request that submits one unseal key.
pub fn unseal_request(flavor: Flavor, key: &Secret) -> (request: VaultRequest)
    ensures
        request@ == unseal_request_view(flavor, key@),
{
    let quoted = json_string(key.expose_secret().as_str());
    let body = join3("{\"key\":", quoted.as_str(), ",\"migrate\":false,\"reset\":false}");
    vault_request(flavor, Method::Put, "/v1/sys/unseal", body)
}

/// The request that fetches the unseal keys from the given path.
pub open spec fn get_unseal_keys_request_view(
    flavor: Flavor,
    path: Seq<char>,
    token: Seq<char>,
) -> VaultRequestView {
    token_request(flavor, token, Method::Get, path, Seq::empty())
}

/// The request that fetches the unseal keys from the given path.
pub fn get_unseal_keys_request(flavor: Flavor, path: &str, token: &Secret) -> (request:
    VaultRequest)
    ensures
        request@ == get_unseal_keys_request_view(flavor, path@, token@),
{
    vault_request_with_token(flavor, token, Method::Get, path, String::new())
}

/// The request that initializes a cluster, with the given body.
pub open spec fn init_request_view(flavor: Flavor, body: Seq<char>) -> VaultRequestView {
    plain_request(flavor, Method::Put, "/v1/sys/init"@, body)
}

/// The request that initializes a cluster, with the given body.
pub fn init_request(flavor: Flavor, body: String) -> (request: VaultRequest)
    ensures
        request@ == init_request_view(flavor, body@),
{
    vault_request(flavor, Method::Put, "/v1/sys/init", body)
}

/// The request that joins a member to a Raft cluster, with the given body.
pub open spec fn raft_join_request_view(flavor: Flavor, body: Seq<char>) -> VaultRequestView {
    plain_request(flavor, Method::Post, "/v1/sys/storage/raft/join"@, body)
}

/// The request that joins a member to a Raft cluster, with the given body.
pub fn raft_join_request(flavor: Flavor, body: String) -> (request: VaultRequest)
    ensures
        request@ == raft_join_request_view(flavor, body@),
{
    vault_request(flavor, Method::Post, "/v1/sys/storage/raft/join", body)
}

/// The request that asks a member for the Raft configuration.
pub open spec fn raft_configuration_request_view(
    flavor: Flavor,
    token: Seq<char>,
) -> VaultRequestView {
    token_request(flavor, token, Method::Get, "/v1/sys/storage/raft/configuration"@, Seq::empty())
}

/// The request that asks a member for the Raft configuration.
pub fn raft_configuration_request(flavor: Flavor, token: &Secret) -> (request: VaultRequest)
    ensures
        request@ == raft_configuration_request_view(flavor, token@),
{
    vault_request_with_token(
        flavor,
        token,
        Method::Get,
        "/v1/sys/storage/raft/configuration",
        String::new(),
    )
}

/// The request that asks the active member to give up leadership.
pub open spec fn step_down_request_view(flavor: Flavor, token: Seq<char>) -> VaultRequestView {
    token_request(flavor, token, Method::Put, "/v1/sys/step-down"@, Seq::empty())
}

/// The request that asks the active member to give up leadership.
pub fn step_down_request(flavor: Flavor, token: &Secret) -> (request: VaultRequest)
    ensures
        request@ == step_down_request_view(flavor, token@),
{
    vault_request_with_token(flavor, token, Method::Put, "/v1/sys/step-down", String::new())
}

} // verus!
