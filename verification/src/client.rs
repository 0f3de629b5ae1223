//! How a node answers a request, and how it reads the answer to its own.

use crate::addr::Address;
use crate::daemon::protocol::{
    Message, MessageView, Method, Payload, PayloadView, Response, ResponseStatus, ResponseView,
};
use crate::notification::{Notification, NotificationView};
use crate::AppMode;
use vstd::prelude::*;
use vstd::string::StringExecFns;

verus! {

/// The answer to `msg` of a node that listens at `addr` and has the role
/// `host`. A claim to be the host that does not say where the host listens
/// is a request that cannot be served, and fails.
pub open spec fn answer(addr: Address, host: AppMode<Address>, msg: MessageView) -> ResponseView {
    match msg.method {
        Method::Ping => ResponseView::success(PayloadView::Text("Pong"@)),
        Method::GetHost => match host {
            AppMode::Host => ResponseView::success(PayloadView::of_address(addr)),
            AppMode::Client(Some(h)) => ResponseView::success(PayloadView::of_address(h)),
            AppMode::Client(None) => ResponseView::failed(),
        },
        Method::ImHost => match msg.payload.address() {
            Some(_) => ResponseView::empty(),
            None => ResponseView::failed(),
        },
        Method::NewNotification | Method::Done => ResponseView::empty(),
    }
}

/// The role of a node after it has handled `msg` in the role `host`: a
/// sender that says it is the host, and who it is, is believed.
pub open spec fn role_after(host: AppMode<Address>, msg: MessageView) -> AppMode<Address> {
    match (msg.method, msg.payload.address()) {
        (Method::ImHost, Some(sender)) => AppMode::Client(Some(sender)),
        _ => host,
    }
}

/// The notification that a node in the role `host` puts on its desktop for
/// `msg`: the one that a host is sent, and none otherwise.
pub open spec fn shown(host: AppMode<Address>, msg: MessageView) -> Option<NotificationView> {
    match (msg.method, host, msg.payload) {
        (Method::NewNotification, AppMode::Host, PayloadView::Notification(n)) => Some(n),
        _ => None,
    }
}

/// What handling a request comes to: the answer to send back, and the
/// notification to put on the desktop, if there is one.
#[derive(Debug, PartialEq, Eq)]
pub struct Handled {
    pub response: Response,
    pub display: Option<Notification>,
}

impl Handled {
    /// The notification to display, as a mathematical value.
    pub open spec fn display_view(&self) -> Option<NotificationView> {
        match self.display {
            Some(n) => Some(n@),
            None => None,
        }
    }
}

/// Answers the requests that reach a node.
#[derive(Clone, Copy, Debug, PartialEq, Eq, Structural)]
pub struct MessageHandler {
    /// Where this node listens.
    pub addr: Address,
}

impl MessageHandler {
    /// Handles one request in the role `host`, which an `ImHost` request
    /// changes. Nothing is sent or shown here: the caller does both.
    pub fn handle(&self, host: &mut AppMode<Address>, msg: Message) -> (out: Handled)
        ensures
            out.response@ == answer(self.addr, *old(host), msg@),
            out.display_view() == shown(*old(host), msg@),
            *final(host) == role_after(*old(host), msg@),
    {
        match msg.method {
            Method::Ping => Handled {
                response: Response::success(Payload::Text(String::from_str("Pong"))),
                display: None,
            },
            Method::NewNotification => {
                let display = if host.is_host() {
                    match msg.payload {
                        Payload::Notification(notif) => Some(notif),
                        _ => None,
                    }
                } else {
                    None
                };
                Handled { response: Response::empty(), display }
            },
            Method::GetHost => {
                let response = match host {
                    AppMode::Host => Response::success(Payload::of_address(self.addr)),
                    AppMode::Client(Some(h)) => Response::success(Payload::of_address(*h)),
                    AppMode::Client(None) => Response::failed(),
                };
                Handled { response, display: None }
            },
            Method::ImHost => {
                let response = match msg.payload.address() {
                    Some(sender) => {
                        *host = AppMode::Client(Some(sender));
                        Response::empty()
                    },
                    None => Response::failed(),
                };
                Handled { response, display: None }
            },
            Method::Done => Handled { response: Response::empty(), display: None },
        }
    }
}

/// Why an exchange with a peer did not give what was asked for.
#[derive(Clone, Copy, Debug, PartialEq, Eq, Structural)]
pub enum ClientError {
    /// The peer is not the host and has named the node that it takes for it.
    HostChanged,
    /// The peer could not name a host.
    Failed,
}

impl ClientError {
    /// The error in words.
    pub fn to_string(&self) -> (s: String)
        ensures
            s@ == match *self {
                ClientError::HostChanged => "host changed"@,
                ClientError::Failed => "failed to get addr"@,
            },
    {
        match self {
            ClientError::HostChanged => String::from_str("host changed"),
            ClientError::Failed => String::from_str("failed to get addr"),
        }
    }
}

/// The role of a node that held `host` and has read the answer `res` to any
/// request of its own: a redirect that names a host is followed.
pub open spec fn role_after_answer(host: AppMode<Address>, res: ResponseView) -> AppMode<Address> {
    match res.redirect() {
        Some(new_host) => AppMode::Client(Some(new_host)),
        None => host,
    }
}

/// Whether `res` is let through to the operation that asked: a redirect
/// never is.
pub open spec fn passes(res: ResponseView) -> bool {
    res.status != ResponseStatus::HostChanged
}

/// Whether `res` is the answer that a ping waits for.
pub open spec fn is_pong(res: ResponseView) -> bool {
    res == ResponseView::success(PayloadView::Text("Pong"@))
}

/// The role of a node that held `host` and has read the answer `res` to its
/// request for the host: the host that a success names is believed.
pub open spec fn role_after_get_addr(host: AppMode<Address>, res: ResponseView) -> AppMode<
    Address,
> {
    match (res.status, res.result) {
        (ResponseStatus::HostChanged, _) => role_after_answer(host, res),
        (ResponseStatus::Success, Some(p)) => match p.address() {
            Some(found) => AppMode::Client(Some(found)),
            None => host,
        },
        _ => host,
    }
}

/// The entry point of a node's own requests and of its answers to others.
#[derive(Clone, Copy, Debug, PartialEq, Eq, Structural)]
pub struct Client {
    /// Where this node listens.
    pub addr: Address,
}

impl Client {
    /// The client of the node that listens at `addr`.
    pub fn new(addr: Address) -> (c: Client)
        ensures
            c.addr == addr,
    {
        Client { addr }
    }

    /// Prepares one exchange with the node at `peer`. The connection itself
    /// is the caller's to open, to `peer`.
    pub fn connect(&self, peer: Address) -> (s: StreamClient)
        ensures
            s.addr == self.addr,
            s.peer == peer,
    {
        StreamClient { addr: self.addr, peer }
    }

    /// The handler of the requests that reach this node.
    pub fn handle(&self) -> (h: MessageHandler)
        ensures
            h.addr == self.addr,
    {
        MessageHandler { addr: self.addr }
    }
}

/// One exchange with one peer: a request is written, one answer is read.
///
/// Each operation comes in two parts, the request to write and what the
/// answer means; between the two the caller does the writing and reading.
#[derive(Clone, Copy, Debug, PartialEq, Eq, Structural)]
pub struct StreamClient {
    /// Where this node listens.
    pub addr: Address,
    /// Where the peer listens.
    pub peer: Address,
}

impl StreamClient {
    /// Reads the answer to any request: a redirect ends the operation with
    /// [`ClientError::HostChanged`], and the host that it names becomes this
    /// node's host; any other answer is handed on as it is.
    pub fn send(&self, host: &mut AppMode<Address>, res: Response) -> (r: Result<
        Response,
        ClientError,
    >)
        ensures
            *final(host) == role_after_answer(*old(host), res@),
            passes(res@) ==> r == Ok::<Response, ClientError>(res),
            !passes(res@) ==> r == Err::<Response, ClientError>(ClientError::HostChanged),
    {
        if res.is_host_changed() {
            if let Some(payload) = &res.result {
                if let Some(new_host) = payload.address() {
                    *host = AppMode::Client(Some(new_host));
                }
            }
            return Err(ClientError::HostChanged);
        }
        Ok(res)
    }

    /// The request of a ping.
    pub fn ping_message(&self) -> (m: Message)
        ensures
            m@ == (MessageView { method: Method::Ping, payload: PayloadView::Text("Ping"@) }),
    {
        Message { method: Method::Ping, payload: Payload::Text(String::from_str("Ping")) }
    }

    /// Reads the answer to a ping: `true` exactly for a success that carries
    /// the text `Pong`.
    pub fn ping(&self, host: &mut AppMode<Address>, res: Response) -> (alive: bool)
        ensures
            *final(host) == role_after_answer(*old(host), res@),
            alive == is_pong(res@),
    {
        let res = match self.send(host, res) {
            Ok(res) => res,
            Err(_) => {
                return false;
            },
        };
        if res.is_failed() {
            return false;
        }
        match res.result {
            Some(Payload::Text(s)) => s == String::from_str("Pong"),
            _ => false,
        }
    }

    /// The request that forwards `notif` to the peer.
    pub fn notification_message(&self, notif: Notification) -> (m: Message)
        ensures
            m@ == (MessageView {
                method: Method::NewNotification,
                payload: PayloadView::Notification(notif@),
            }),
    {
        Message { method: Method::NewNotification, payload: Payload::Notification(notif) }
    }

    /// Reads the answer to a forwarded notification: all but a redirect is
    /// taken for done.
    pub fn send_notification(&self, host: &mut AppMode<Address>, res: Response) -> (r: Result<
        (),
        ClientError,
    >)
        ensures
            *final(host) == role_after_answer(*old(host), res@),
            passes(res@) ==> r == Ok::<(), ClientError>(()),
            !passes(res@) ==> r == Err::<(), ClientError>(ClientError::HostChanged),
    {
        match self.send(host, res) {
            Ok(_) => Ok(()),
            Err(e) => Err(e),
        }
    }

    /// The request for the host that the peer believes in.
    pub fn get_addr_message(&self) -> (m: Message)
        ensures
            m@ == (MessageView { method: Method::GetHost, payload: PayloadView::Empty }),
    {
        Message { method: Method::GetHost, payload: Payload::Empty }
    }

    /// Reads the answer to a request for the host. The host that a success
    /// names becomes this node's host. A failure ends in
    /// [`ClientError::Failed`] and changes nothing.
    pub fn get_addr(&self, host: &mut AppMode<Address>, res: Response) -> (r: Result<
        (),
        ClientError,
    >)
        ensures
            *final(host) == role_after_get_addr(*old(host), res@),
            r == match res@.status {
                ResponseStatus::HostChanged => Err::<(), ClientError>(ClientError::HostChanged),
                ResponseStatus::Failed => Err(ClientError::Failed),
                ResponseStatus::Success => Ok(()),
            },
    {
        let res = match self.send(host, res) {
            Ok(res) => res,
            Err(e) => {
                return Err(e);
            },
        };
        if res.is_failed() {
            return Err(ClientError::Failed);
        }
        if let Some(payload) = &res.result {
            if let Some(found) = payload.address() {
                *host = AppMode::Client(Some(found));
            }
        }
        Ok(())
    }

    /// The request that tells the peer that this node is now the host.
    pub fn im_host_message(&self) -> (m: Message)
        ensures
            m@ == (MessageView {
                method: Method::ImHost,
                payload: PayloadView::of_address(self.addr),
            }),
    {
        Message { method: Method::ImHost, payload: Payload::of_address(self.addr) }
    }

    /// Reads the answer to the claim of being the host: all but a redirect
    /// is taken for done.
    pub fn im_host(&self, host: &mut AppMode<Address>, res: Response) -> (r: Result<
        (),
        ClientError,
    >)
        ensures
            *final(host) == role_after_answer(*old(host), res@),
            passes(res@) ==> r == Ok::<(), ClientError>(()),
            !passes(res@) ==> r == Err::<(), ClientError>(ClientError::HostChanged),
    {
        match self.send(host, res) {
            Ok(_) => Ok(()),
            Err(e) => Err(e),
        }
    }
}

/// A ping is answered with a success that carries the text `Pong`, in every
/// role and whatever the request carries; the node that pinged reads that
/// answer as alive.
pub proof fn lemma_ping_answered_with_pong(
    addr: Address,
    host: AppMode<Address>,
    payload: PayloadView,
)
    ensures
        answer(addr, host, MessageView { method: Method::Ping, payload })
            == ResponseView::success(PayloadView::Text("Pong"@)),
        is_pong(answer(addr, host, MessageView { method: Method::Ping, payload })),
{
}

/// Asked for the host, the host names itself.
pub proof fn lemma_host_names_itself(addr: Address, payload: PayloadView)
    ensures
        answer(addr, AppMode::Host, MessageView { method: Method::GetHost, payload })
            == ResponseView::success(PayloadView::of_address(addr)),
{
}

/// Asked for the host, a client that knows one names it.
pub proof fn lemma_client_names_its_host(addr: Address, known: Address, payload: PayloadView)
    ensures
        answer(
            addr,
            AppMode::Client(Some(known)),
            MessageView { method: Method::GetHost, payload },
        ) == ResponseView::success(PayloadView::of_address(known)),
{
}

/// Asked for the host, a client that knows none fails.
pub proof fn lemma_client_without_host_fails(addr: Address, payload: PayloadView)
    ensures
        answer(addr, AppMode::Client(None), MessageView { method: Method::GetHost, payload })
            == ResponseView::failed(),
{
}

/// A node that is told by `sender` that `sender` is the host becomes its
/// client, whatever it was before, and answers with an empty success.
pub proof fn lemma_im_host_makes_client(addr: Address, host: AppMode<Address>, sender: Address)
    ensures
        role_after(
            host,
            MessageView { method: Method::ImHost, payload: PayloadView::of_address(sender) },
        ) == AppMode::Client(Some(sender)),
        answer(
            addr,
            host,
            MessageView { method: Method::ImHost, payload: PayloadView::of_address(sender) },
        ) == ResponseView::empty(),
{
}

/// A request that does not claim the host's place leaves the role of the
/// node that handles it as it was.
pub proof fn lemma_other_requests_keep_role(host: AppMode<Address>, msg: MessageView)
    requires
        msg.method != Method::ImHost,
    ensures
        role_after(host, msg) == host,
{
}

/// Only the host displays: a client shows nothing, whatever it is sent.
pub proof fn lemma_client_shows_nothing(known: Option<Address>, msg: MessageView)
    ensures
        shown(AppMode::Client(known), msg) is None,
{
}

/// A redirect to `new_host` makes the node that reads it a client of
/// `new_host`, whatever it was and whatever it had asked, and the operation
/// that asked is not given the answer: each of them ends in an error, and a
/// ping in `false`.
pub proof fn lemma_redirect_is_followed(host: AppMode<Address>, new_host: Address)
    ensures
        ResponseView::host_changed(new_host).redirect() == Some(new_host),
        !passes(ResponseView::host_changed(new_host)),
        !is_pong(ResponseView::host_changed(new_host)),
        role_after_answer(host, ResponseView::host_changed(new_host)) == AppMode::Client(
            Some(new_host),
        ),
        role_after_get_addr(host, ResponseView::host_changed(new_host)) == AppMode::Client(
            Some(new_host),
        ),
{
}

/// An answer that is no redirect leaves the role as it was, unless it
/// answers a request for the host.
pub proof fn lemma_other_answers_keep_role(host: AppMode<Address>, res: ResponseView)
    requires
        passes(res),
    ensures
        role_after_answer(host, res) == host,
{
}

/// A node that asks a peer for the host and reads the peer's answer takes
/// over what the peer believes: the peer itself if it is the host, the
/// peer's host if it knows one, and nothing if it knows none.
pub proof fn lemma_get_addr_follows_peer(
    host: AppMode<Address>,
    peer: Address,
    peer_role: AppMode<Address>,
    payload: PayloadView,
)
    ensures
        role_after_get_addr(
            host,
            answer(peer, peer_role, MessageView { method: Method::GetHost, payload }),
        ) == match peer_role {
            AppMode::Host => AppMode::Client(Some(peer)),
            AppMode::Client(Some(known)) => AppMode::Client(Some(known)),
            AppMode::Client(None) => host,
        },
{
}

/// Whatever a node is asked, in whatever role: its answer obeys the rule of
/// the wire, and it is never a redirect.
pub proof fn lemma_answers_are_well_formed(
    addr: Address,
    host: AppMode<Address>,
    msg: MessageView,
)
    ensures
        answer(addr, host, msg).wf(),
        passes(answer(addr, host, msg)),
{
}

} // verus!
