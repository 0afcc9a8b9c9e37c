use vstd::prelude::*;
use crate::error::{Error, ErrorKind, ErrorView};
use crate::helpers::ListParams;
use crate::http::{VaultRequest, VaultRequestView, VaultResponse, VaultResponseView};
use crate::member::{Member, MemberView};
use crate::wait::PodCondition;

verus! {

/// What a procedure of this library asks of its surroundings next. The surroundings do
/// what the action says and hand back the [`Event`] that tells how it went.
pub enum Action {
    /// Open a channel to the given port of the member: inside TLS, verified against
    /// `server_name`, where one is given, and plain otherwise. Try at most `attempts` times,
    /// backing off exponentially from `base_delay_millis`, with jitter. Answered by
    /// [`Event::Completed`].
    Connect {
        member: String,
        port: u16,
        server_name: Option<String>,
        attempts: u32,
        base_delay_millis: u64,
    },
    /// Open a stream to the given port of the host. Answered by [`Event::Completed`].
    Dial { host: String, port: u16 },
    /// Open a channel over the stream that was opened last: inside TLS, verified against
    /// `server_name`, where one is given, and plain otherwise. Answered by
    /// [`Event::Completed`].
    Handshake { server_name: Option<String> },
    /// Wait until the channel is ready, send the request over it, and read the one response
    /// to its end. Answered by [`Event::Response`].
    Send { request: VaultRequest },
    /// Watch the member until the condition holds of it. Answered by [`Event::Completed`].
    Await { member: String, condition: PodCondition },
    /// Ask the platform to delete the member, and wait until it is gone. Answered by
    /// [`Event::Completed`].
    Delete { member: String },
    /// Get the member as it is now. Answered by [`Event::Member`].
    Get { member: String },
    /// List the members that the parameters select. Answered by [`Event::Members`].
    List { params: ListParams },
    /// The procedure has ended well.
    Done,
    /// The procedure has failed.
    Fail { error: Error },
}

/// The mathematical model of an [`Action`].
pub enum ActionView {
    Connect {
        member: Seq<char>,
        port: u16,
        server_name: Option<Seq<char>>,
        attempts: u32,
        base_delay_millis: u64,
    },
    Dial { host: Seq<char>, port: u16 },
    Handshake { server_name: Option<Seq<char>> },
    Send { request: VaultRequestView },
    Await { member: Seq<char>, condition: PodCondition },
    Delete { member: Seq<char> },
    Get { member: Seq<char> },
    List { label_selector: Option<Seq<char>> },
    Done,
    Fail { error: ErrorView },
}

impl View for Action {
    type V = ActionView;

    open spec fn view(&self) -> ActionView {
        match self {
            Action::Connect { member, port, server_name, attempts, base_delay_millis } => {
                ActionView::Connect {
                    member: member@,
                    port: *port,
                    server_name: server_name.deep_view(),
                    attempts: *attempts,
                    base_delay_millis: *base_delay_millis,
                }
            },
            Action::Dial { host, port } => ActionView::Dial { host: host@, port: *port },
            Action::Handshake { server_name } => ActionView::Handshake {
                server_name: server_name.deep_view(),
            },
            Action::Send { request } => ActionView::Send { request: request@ },
            Action::Await { member, condition } => ActionView::Await {
                member: member@,
                condition: *condition,
            },
            Action::Delete { member } => ActionView::Delete { member: member@ },
            Action::Get { member } => ActionView::Get { member: member@ },
            Action::List { params } => ActionView::List { label_selector: params@ },
            Action::Done => ActionView::Done,
            Action::Fail { error } => ActionView::Fail { error: error@ },
        }
    }
}

impl ActionView {
    /// Whether the action ends the procedure.
    pub open spec fn is_final(self) -> bool {
        self is Done || self is Fail
    }
}

/// How the last action went.
pub enum Event {
    /// The action was carried out.
    Completed,
    /// The member that was asked for.
    Member(Member),
    /// The members that were asked for, in the order of the list.
    Members(Vec<Member>),
    /// The response to the request that was sent.
    Response(VaultResponse),
    /// The action failed, for the given reason.
    Failed(String),
    /// The caller has cancelled the run.
    Cancelled,
}

/// The mathematical model of an [`Event`].
pub enum EventView {
    Completed,
    Member(MemberView),
    Members(Seq<MemberView>),
    Response(VaultResponseView),
    Failed(Seq<char>),
    Cancelled,
}

impl View for Event {
    type V = EventView;

    open spec fn view(&self) -> EventView {
        match self {
            Event::Completed => EventView::Completed,
            Event::Member(member) => EventView::Member(member@),
            Event::Members(members) => EventView::Members(members.deep_view()),
            Event::Response(response) => EventView::Response(response@),
            Event::Failed(cause) => EventView::Failed(cause@),
            Event::Cancelled => EventView::Cancelled,
        }
    }
}

/// The failure of a procedure that was handed an event that does not answer its last
/// action.
pub open spec fn unexpected_event() -> ErrorView {
    ErrorView { kind: ErrorKind::WaitCondition, message: "unexpected event"@ }
}

/// The failure of a procedure that the caller has cancelled.
pub open spec fn cancelled() -> ErrorView {
    ErrorView { kind: ErrorKind::Cancelled, message: "cancelled"@ }
}

/// The action that fails a procedure over an event that does not answer its last action.
pub fn fail_unexpected() -> (action: Action)
    ensures
        action@ == (ActionView::Fail { error: unexpected_event() }),
{
    Action::Fail { error: Error::new(ErrorKind::WaitCondition, "unexpected event") }
}

/// The action that fails a procedure that the caller has cancelled.
pub fn fail_cancelled() -> (action: Action)
    ensures
        action@ == (ActionView::Fail { error: cancelled() }),
{
    Action::Fail { error: Error::new(ErrorKind::Cancelled, "cancelled") }
}

} // verus!
