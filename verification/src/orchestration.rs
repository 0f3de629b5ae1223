//! What a node decides, event by event.
//!
//! The program around this crate waits for the next event: a tick of its
//! timer, a command of the operator, a word from discovery, a notification
//! on the desktop, a request of a peer, or the answer to a request of its
//! own. It hands the event to [`Daemon::step`] and does what comes back:
//! it writes a request to a peer, answers the peer that asked, shows a
//! notification, changes the icon, or stops.

use crate::addr::Address;
use crate::client::{
    answer, is_pong, role_after, role_after_answer, role_after_get_addr, shown, MessageHandler,
    StreamClient,
};
use crate::daemon::protocol::{
    Message, MessageView, Method, PayloadView, Response, ResponseStatus, ResponseView,
};
use crate::daemon::service::AppServiceEvent;
use crate::notification::{Notification, NotificationView};
use crate::tray::{TrayEvent, TrayIcon};
use crate::AppMode;
use vstd::prelude::*;
use vstd::string::StringExecFns;

verus! {

/// The name under which this program's own notifications appear. They are
/// not forwarded.
pub const OWN_APP_NAME: &'static str = "gon";

/// The peers that have answered a ping, in the order in which they were
/// first reached, none of them twice. Peers are added and never removed.
#[derive(Debug)]
pub struct AddressBook {
    peers: Vec<Address>,
}

impl View for AddressBook {
    type V = Seq<Address>;

    closed spec fn view(&self) -> Seq<Address> {
        self.peers@
    }
}

/// `book` with `peer` added at the end, unless it is there already.
pub open spec fn with_peer(book: Seq<Address>, peer: Address) -> Seq<Address> {
    if book.contains(peer) {
        book
    } else {
        book.push(peer)
    }
}

impl AddressBook {
    /// The rule of the book: no peer is in it twice. A new book obeys it,
    /// and adding a peer keeps it.
    pub open spec fn wf(&self) -> bool {
        self@.no_duplicates()
    }

    /// A book without peers.
    pub fn new() -> (book: AddressBook)
        ensures
            book@ == Seq::<Address>::empty(),
            book.wf(),
    {
        AddressBook { peers: Vec::new() }
    }

    /// How many peers the book holds.
    pub fn len(&self) -> (n: usize)
        ensures
            n == self@.len(),
    {
        self.peers.len()
    }

    /// The peer that was added as the `at`-th, counted from 0.
    pub fn get(&self, at: usize) -> (peer: Option<Address>)
        ensures
            peer == if at < self@.len() {
                Some(self@[at as int])
            } else {
                None
            },
    {
        if at < self.peers.len() {
            Some(self.peers[at])
        } else {
            None
        }
    }

    /// Whether the book holds `peer`.
    pub fn contains(&self, peer: Address) -> (found: bool)
        ensures
            found == self@.contains(peer),
    {
        let mut i: usize = 0;
        while i < self.peers.len()
            invariant
                i <= self.peers.len(),
                forall|before: int| 0 <= before < i ==> self.peers@[before] != peer,
            decreases self.peers.len() - i,
        {
            if self.peers[i] == peer {
                return true;
            }
            i += 1;
        }
        false
    }

    /// Adds `peer`, unless the book holds it already; says whether it was
    /// added. Every peer that the book held, it still holds, at its place.
    pub fn insert(&mut self, peer: Address) -> (added: bool)
        ensures
            added == !old(self)@.contains(peer),
            final(self)@ == with_peer(old(self)@, peer),
            old(self).wf() ==> final(self).wf(),
    {
        if self.contains(peer) {
            return false;
        }
        self.peers.push(peer);
        proof {
            lemma_book_only_grows(old(self)@, peer);
        }
        true
    }
}

/// Adding a peer removes none and moves none, puts none in twice, and adds
/// nothing where the peer is there already.
pub proof fn lemma_book_only_grows(book: Seq<Address>, peer: Address)
    ensures
        book.is_prefix_of(with_peer(book, peer)),
        with_peer(book, peer).contains(peer),
        with_peer(with_peer(book, peer), peer) == with_peer(book, peer),
        book.no_duplicates() ==> with_peer(book, peer).no_duplicates(),
{
    let grown = with_peer(book, peer);
    if !book.contains(peer) {
        assert(grown[book.len() as int] == peer);
        if book.no_duplicates() {
            assert forall|i: int, j: int|
                0 <= i < grown.len() && 0 <= j < grown.len() && i != j implies grown[i]
                != grown[j] by {
                if i < book.len() && j < book.len() {
                    assert(book[i] != book[j]);
                } else if i < book.len() {
                    assert(book.contains(grown[i]));
                } else {
                    assert(book.contains(grown[j]));
                }
            }
        }
    }
}

/// Which of a node's own exchanges a request opens, so that the answer can
/// be told apart when it comes.
#[derive(Clone, Copy, Debug, PartialEq, Eq, Structural)]
pub enum Op {
    /// The periodic search for the host asks the peer at this place in the
    /// address book.
    Resolve(usize),
    /// A node that has become the host tells its former host.
    Announce,
    /// A discovered peer is pinged.
    Probe,
    /// A peer that has answered a ping is asked for the host.
    Learn,
    /// A notification is forwarded to the host.
    Forward,
}

/// A request to write: the caller connects to `peer`, writes `message`,
/// reads one answer and hands it back with `op` and `peer` as
/// [`Event::Answered`].
#[derive(Clone, Debug, PartialEq, Eq)]
pub struct Request {
    pub peer: Address,
    pub message: Message,
    pub op: Op,
}

/// What a [`Request`] holds, as mathematical values.
pub struct RequestView {
    pub peer: Address,
    pub message: MessageView,
    pub op: Op,
}

impl View for Request {
    type V = RequestView;

    open spec fn view(&self) -> RequestView {
        RequestView { peer: self.peer, message: self.message@, op: self.op }
    }
}

/// What can happen to a node.
#[derive(Clone, Debug, PartialEq, Eq)]
pub enum Event {
    /// The timer of the periodic search for the host has ticked.
    Tick,
    /// The operator has given a command.
    Tray(TrayEvent),
    /// Discovery has delivered something.
    Service(AppServiceEvent),
    /// A notification has appeared on this desktop.
    Notified(Notification),
    /// A peer has sent a request.
    Received(Message),
    /// An exchange that this node opened has ended: with the answer of the
    /// peer, or with `None` where none could be had.
    Answered { op: Op, peer: Address, response: Option<Response> },
}

/// What an [`Event`] holds, as mathematical values.
pub enum EventView {
    Tick,
    Tray(TrayEvent),
    Service(AppServiceEvent),
    Notified(NotificationView),
    Received(MessageView),
    Answered { op: Op, peer: Address, response: Option<ResponseView> },
}

impl View for Event {
    type V = EventView;

    open spec fn view(&self) -> EventView {
        match self {
            Event::Tick => EventView::Tick,
            Event::Tray(command) => EventView::Tray(*command),
            Event::Service(found) => EventView::Service(*found),
            Event::Notified(notif) => EventView::Notified(notif@),
            Event::Received(msg) => EventView::Received(msg@),
            Event::Answered { op, peer, response } => EventView::Answered {
                op: *op,
                peer: *peer,
                response: match response {
                    Some(res) => Some(res@),
                    None => None,
                },
            },
        }
    }
}

/// What the caller is to do after an event.
#[derive(Debug, PartialEq, Eq)]
pub struct Actions {
    /// A request to write to a peer.
    pub request: Option<Request>,
    /// The answer to write to the peer whose request was the event.
    pub reply: Option<Response>,
    /// A notification to put on the desktop.
    pub display: Option<Notification>,
    /// The icon to show in the tray from now on.
    pub icon: Option<TrayIcon>,
    /// Whether to stop.
    pub quit: bool,
}

/// What an [`Actions`] holds, as mathematical values.
pub struct ActionsView {
    pub request: Option<RequestView>,
    pub reply: Option<ResponseView>,
    pub display: Option<NotificationView>,
    pub icon: Option<TrayIcon>,
    pub quit: bool,
}

impl View for Actions {
    type V = ActionsView;

    open spec fn view(&self) -> ActionsView {
        ActionsView {
            request: match self.request {
                Some(req) => Some(req@),
                None => None,
            },
            reply: match self.reply {
                Some(res) => Some(res@),
                None => None,
            },
            display: match self.display {
                Some(notif) => Some(notif@),
                None => None,
            },
            icon: self.icon,
            quit: self.quit,
        }
    }
}

impl ActionsView {
    /// Nothing to do.
    pub open spec fn nothing() -> ActionsView {
        ActionsView { request: None, reply: None, display: None, icon: None, quit: false }
    }

    /// Nothing to do but to write `message` to `peer`.
    pub open spec fn ask(peer: Address, message: MessageView, op: Op) -> ActionsView {
        ActionsView { request: Some(RequestView { peer, message, op }), ..Self::nothing() }
    }
}

impl Actions {
    /// Nothing to do.
    pub fn nothing() -> (a: Actions)
        ensures
            a@ == ActionsView::nothing(),
    {
        Actions { request: None, reply: None, display: None, icon: None, quit: false }
    }

    /// Nothing to do but to write `message` to `peer`.
    pub fn ask(peer: Address, message: Message, op: Op) -> (a: Actions)
        ensures
            a@ == ActionsView::ask(peer, message@, op),
    {
        Actions {
            request: Some(Request { peer, message, op }),
            reply: None,
            display: None,
            icon: None,
            quit: false,
        }
    }
}

/// The state of a node: where it listens, its role, and the peers it has
/// reached.
#[derive(Debug)]
pub struct Daemon {
    pub addr: Address,
    pub host: AppMode<Address>,
    pub addr_book: AddressBook,
}

/// What a [`Daemon`] holds, as mathematical values.
pub struct DaemonView {
    pub addr: Address,
    pub host: AppMode<Address>,
    pub book: Seq<Address>,
}

impl View for Daemon {
    type V = DaemonView;

    open spec fn view(&self) -> DaemonView {
        DaemonView { addr: self.addr, host: self.host, book: self.addr_book@ }
    }
}

/// The request for the host, as a node writes it.
pub open spec fn get_host_request() -> MessageView {
    MessageView { method: Method::GetHost, payload: PayloadView::Empty }
}

/// The ping, as a node writes it.
pub open spec fn ping_request() -> MessageView {
    MessageView { method: Method::Ping, payload: PayloadView::Text("Ping"@) }
}

/// The claim of the node at `addr` to be the host, as it writes it.
pub open spec fn im_host_request(addr: Address) -> MessageView {
    MessageView { method: Method::ImHost, payload: PayloadView::of_address(addr) }
}

/// The request that forwards `notif`.
pub open spec fn notification_request(notif: NotificationView) -> MessageView {
    MessageView { method: Method::NewNotification, payload: PayloadView::Notification(notif) }
}

impl DaemonView {
    /// The state with the role `host`.
    pub open spec fn with_host(self, host: AppMode<Address>) -> DaemonView {
        DaemonView { host, ..self }
    }

    /// The search for the host goes on with the peer at `at` in the address
    /// book, and is over where the book ends.
    pub open spec fn resolve_from(self, at: nat) -> ActionsView {
        if at < self.book.len() && at <= usize::MAX {
            ActionsView::ask(self.book[at as int], get_host_request(), Op::Resolve(at as usize))
        } else {
            ActionsView::nothing()
        }
    }

    /// The timer has ticked: a client without a host asks the peers in its
    /// address book, one after the other, for the host.
    pub open spec fn on_tick(self) -> (DaemonView, ActionsView) {
        if self.host == AppMode::<Address>::Client(None) {
            (self, self.resolve_from(0))
        } else {
            (self, ActionsView::nothing())
        }
    }

    /// The operator has given a command. A node that becomes the host
    /// tells the host that it had, if it had one.
    pub open spec fn on_tray(self, command: TrayEvent) -> (DaemonView, ActionsView) {
        match command {
            TrayEvent::BecomeHost => (
                self.with_host(AppMode::Host),
                ActionsView {
                    request: match self.host {
                        AppMode::Client(Some(former)) => Some(
                            RequestView {
                                peer: former,
                                message: im_host_request(self.addr),
                                op: Op::Announce,
                            },
                        ),
                        _ => None,
                    },
                    icon: Some(TrayIcon::Host),
                    ..ActionsView::nothing()
                },
            ),
            TrayEvent::BecomeClient => (
                self.with_host(AppMode::Client(None)),
                ActionsView { icon: Some(TrayIcon::Default), ..ActionsView::nothing() },
            ),
            TrayEvent::Quit => (self, ActionsView { quit: true, ..ActionsView::nothing() }),
        }
    }

    /// Discovery has delivered something: a node that is not the host pings
    /// a peer that was discovered.
    pub open spec fn on_service(self, found: AppServiceEvent) -> (DaemonView, ActionsView) {
        match found {
            AppServiceEvent::NodeDiscovered(peer) if !(self.host is Host) => (
                self,
                ActionsView::ask(peer, ping_request(), Op::Probe),
            ),
            _ => (self, ActionsView::nothing()),
        }
    }

    /// A notification has appeared on this desktop: a client that knows the
    /// host forwards it, unless it is this program's own.
    pub open spec fn on_notified(self, notif: NotificationView) -> (DaemonView, ActionsView) {
        match self.host {
            AppMode::Client(Some(host)) if notif.app_name != OWN_APP_NAME@ => (
                self,
                ActionsView::ask(host, notification_request(notif), Op::Forward),
            ),
            _ => (self, ActionsView::nothing()),
        }
    }

    /// A peer has sent a request. The sentinel is not answered. A client
    /// that knows the host sends the peer there. Any other node handles the
    /// request and answers it.
    pub open spec fn on_received(self, msg: MessageView) -> (DaemonView, ActionsView) {
        if msg.method == Method::Done {
            (self, ActionsView::nothing())
        } else {
            match self.host {
                AppMode::Client(Some(host)) => (
                    self,
                    ActionsView {
                        reply: Some(ResponseView::host_changed(host)),
                        ..ActionsView::nothing()
                    },
                ),
                _ => (
                    self.with_host(role_after(self.host, msg)),
                    ActionsView {
                        reply: Some(answer(self.addr, self.host, msg)),
                        display: shown(self.host, msg),
                        ..ActionsView::nothing()
                    },
                ),
            }
        }
    }

    /// An exchange has ended without an answer: the search for the host
    /// goes on, any other operation is given up.
    pub open spec fn on_silence(self, op: Op) -> (DaemonView, ActionsView) {
        match op {
            Op::Resolve(at) => (self, self.resolve_from(at as nat + 1)),
            _ => (self, ActionsView::nothing()),
        }
    }

    /// An exchange with `peer` has ended with the answer `res`.
    pub open spec fn on_answered(self, op: Op, peer: Address, res: ResponseView) -> (
        DaemonView,
        ActionsView,
    ) {
        match op {
            Op::Resolve(at) => (
                self.with_host(role_after_get_addr(self.host, res)),
                if res.status == ResponseStatus::Success {
                    ActionsView::nothing()
                } else {
                    self.resolve_from(at as nat + 1)
                },
            ),
            Op::Probe => if is_pong(res) {
                (
                    DaemonView { book: with_peer(self.book, peer), ..self },
                    ActionsView::ask(peer, get_host_request(), Op::Learn),
                )
            } else {
                (self.with_host(role_after_answer(self.host, res)), ActionsView::nothing())
            },
            Op::Learn => (
                self.with_host(role_after_get_addr(self.host, res)),
                ActionsView::nothing(),
            ),
            Op::Announce | Op::Forward => (
                self.with_host(role_after_answer(self.host, res)),
                ActionsView::nothing(),
            ),
        }
    }

    /// The state after `event`, and what the caller is to do.
    pub open spec fn next(self, event: EventView) -> (DaemonView, ActionsView) {
        match event {
            EventView::Tick => self.on_tick(),
            EventView::Tray(command) => self.on_tray(command),
            EventView::Service(found) => self.on_service(found),
            EventView::Notified(notif) => self.on_notified(notif),
            EventView::Received(msg) => self.on_received(msg),
            EventView::Answered { op, peer, response: None } => self.on_silence(op),
            EventView::Answered { op, peer, response: Some(res) } => self.on_answered(
                op,
                peer,
                res,
            ),
        }
    }
}

impl Daemon {
    /// A node that listens at `addr`: a client that knows no host and has
    /// reached no peer.
    pub fn new(addr: Address) -> (daemon: Daemon)
        ensures
            daemon@ == (DaemonView {
                addr,
                host: AppMode::Client(None),
                book: Seq::<Address>::empty(),
            }),
            daemon.addr_book.wf(),
    {
        Daemon { addr, host: AppMode::Client(None), addr_book: AddressBook::new() }
    }

    fn resolve_from(&self, at: usize) -> (out: Actions)
        ensures
            out@ == self@.resolve_from(at as nat),
    {
        match self.addr_book.get(at) {
            Some(peer) => Actions::ask(
                peer,
                StreamClient { addr: self.addr, peer }.get_addr_message(),
                Op::Resolve(at),
            ),
            None => Actions::nothing(),
        }
    }

    fn resolve_after(&self, at: usize) -> (out: Actions)
        ensures
            out@ == self@.resolve_from(at as nat + 1),
    {
        if at < usize::MAX {
            self.resolve_from(at + 1)
        } else {
            Actions::nothing()
        }
    }

    fn on_tick(&self) -> (out: Actions)
        ensures
            (self@, out@) == self@.on_tick(),
    {
        if self.host.is_client_and_not_found_host() {
            self.resolve_from(0)
        } else {
            Actions::nothing()
        }
    }

    fn on_tray(&mut self, command: TrayEvent) -> (out: Actions)
        ensures
            (final(self)@, out@) == old(self)@.on_tray(command),
            final(self).addr_book == old(self).addr_book,
    {
        match command {
            TrayEvent::BecomeHost => {
                let request = match self.host {
                    AppMode::Client(Some(former)) => Some(
                        Request {
                            peer: former,
                            message: StreamClient { addr: self.addr, peer: former }.im_host_message(),
                            op: Op::Announce,
                        },
                    ),
                    _ => None,
                };
                self.host = AppMode::Host;
                Actions {
                    request,
                    reply: None,
                    display: None,
                    icon: Some(TrayIcon::Host),
                    quit: false,
                }
            },
            TrayEvent::BecomeClient => {
                self.host = AppMode::Client(None);
                Actions {
                    request: None,
                    reply: None,
                    display: None,
                    icon: Some(TrayIcon::Default),
                    quit: false,
                }
            },
            TrayEvent::Quit => Actions {
                request: None,
                reply: None,
                display: None,
                icon: None,
                quit: true,
            },
        }
    }

    fn on_service(&self, found: AppServiceEvent) -> (out: Actions)
        ensures
            (self@, out@) == self@.on_service(found),
    {
        match found {
            AppServiceEvent::NodeDiscovered(peer) => {
                if self.host.is_host() {
                    Actions::nothing()
                } else {
                    Actions::ask(
                        peer,
                        StreamClient { addr: self.addr, peer }.ping_message(),
                        Op::Probe,
                    )
                }
            },
            AppServiceEvent::Nothing => Actions::nothing(),
        }
    }

    fn on_notified(&self, notif: Notification) -> (out: Actions)
        ensures
            (self@, out@) == self@.on_notified(notif@),
    {
        match self.host {
            AppMode::Client(Some(host)) => {
                if notif.app_name == String::from_str(OWN_APP_NAME) {
                    Actions::nothing()
                } else {
                    Actions::ask(
                        host,
                        StreamClient { addr: self.addr, peer: host }.notification_message(notif),
                        Op::Forward,
                    )
                }
            },
            _ => Actions::nothing(),
        }
    }

    fn on_received(&mut self, msg: Message) -> (out: Actions)
        ensures
            (final(self)@, out@) == old(self)@.on_received(msg@),
            final(self).addr_book == old(self).addr_book,
    {
        if msg.is_done() {
            return Actions::nothing();
        }
        if let AppMode::Client(Some(host)) = self.host {
            return Actions {
                request: None,
                reply: Some(Response::host_changed(host)),
                display: None,
                icon: None,
                quit: false,
            };
        }
        let handled = MessageHandler { addr: self.addr }.handle(&mut self.host, msg);
        Actions {
            request: None,
            reply: Some(handled.response),
            display: handled.display,
            icon: None,
            quit: false,
        }
    }

    fn on_silence(&self, op: Op) -> (out: Actions)
        ensures
            (self@, out@) == self@.on_silence(op),
    {
        match op {
            Op::Resolve(at) => self.resolve_after(at),
            _ => Actions::nothing(),
        }
    }

    fn on_answered(&mut self, op: Op, peer: Address, res: Response) -> (out: Actions)
        ensures
            (final(self)@, out@) == old(self)@.on_answered(op, peer, res@),
            old(self).addr_book.wf() ==> final(self).addr_book.wf(),
    {
        let stream = StreamClient { addr: self.addr, peer };
        match op {
            Op::Resolve(at) => {
                match stream.get_addr(&mut self.host, res) {
                    Ok(()) => Actions::nothing(),
                    Err(_) => self.resolve_after(at),
                }
            },
            Op::Probe => {
                if stream.ping(&mut self.host, res) {
                    self.addr_book.insert(peer);
                    Actions::ask(peer, stream.get_addr_message(), Op::Learn)
                } else {
                    Actions::nothing()
                }
            },
            Op::Learn => {
                let _ = stream.get_addr(&mut self.host, res);
                Actions::nothing()
            },
            Op::Announce => {
                let _ = stream.im_host(&mut self.host, res);
                Actions::nothing()
            },
            Op::Forward => {
                let _ = stream.send_notification(&mut self.host, res);
                Actions::nothing()
            },
        }
    }

    /// Takes in one event: changes the state as the event demands and says
    /// what the caller is to do.
    pub fn step(&mut self, event: Event) -> (out: Actions)
        ensures
            (final(self)@, out@) == old(self)@.next(event@),
            old(self).addr_book.wf() ==> final(self).addr_book.wf(),
    {
        match event {
            Event::Tick => self.on_tick(),
            Event::Tray(command) => self.on_tray(command),
            Event::Service(found) => self.on_service(found),
            Event::Notified(notif) => self.on_notified(notif),
            Event::Received(msg) => self.on_received(msg),
            Event::Answered { op, peer, response: None } => self.on_silence(op),
            Event::Answered { op, peer, response: Some(res) } => self.on_answered(op, peer, res),
        }
    }
}

/// No event moves a node to another address, and none takes a peer out of
/// its address book or moves one in it; a book that holds no peer twice
/// stays so.
pub proof fn lemma_step_keeps_address_and_book(state: DaemonView, event: EventView)
    ensures
        state.next(event).0.addr == state.addr,
        state.book.is_prefix_of(state.next(event).0.book),
        state.book.no_duplicates() ==> state.next(event).0.book.no_duplicates(),
{
    match event {
        EventView::Answered { op: Op::Probe, peer, response: Some(res) } => {
            lemma_book_only_grows(state.book, peer);
        },
        _ => {},
    }
}

/// A peer enters the address book only when it has answered a ping with
/// `Pong`, and then it is that peer that enters.
pub proof fn lemma_book_grows_by_pong_only(state: DaemonView, event: EventView)
    requires
        state.next(event).0.book != state.book,
    ensures
        event matches EventView::Answered { op: Op::Probe, peer, response: Some(res) }
            && is_pong(res) && state.next(event).0.book == state.book.push(peer),
{
}

/// Whatever a node had asked and whatever it was: when the answer is a
/// redirect to `new_host`, the node becomes a client of `new_host`, and the
/// exchange brings nothing else about but, in the search for the host, the
/// question to the next peer.
pub proof fn lemma_redirect_always_followed(
    state: DaemonView,
    op: Op,
    peer: Address,
    new_host: Address,
)
    ensures
        ({
            let event = EventView::Answered {
                op,
                peer,
                response: Some(ResponseView::host_changed(new_host)),
            };
            let (after, actions) = state.next(event);
            &&& after.host == AppMode::Client(Some(new_host))
            &&& after.book == state.book
            &&& actions == match op {
                Op::Resolve(at) => state.resolve_from(at as nat + 1),
                _ => ActionsView::nothing(),
            }
        }),
{
}

/// A client that knows the host sends every peer that asks it anything on
/// to the host, and neither displays anything nor changes.
pub proof fn lemma_client_redirects(state: DaemonView, host: Address, msg: MessageView)
    requires
        state.host == AppMode::Client(Some(host)),
        msg.method != Method::Done,
    ensures
        state.next(EventView::Received(msg)) == (
            state,
            ActionsView {
                reply: Some(ResponseView::host_changed(host)),
                ..ActionsView::nothing()
            },
        ),
{
}

/// Only the host displays a notification, and only one that a peer has
/// forwarded to it; the answers to a node's own requests display nothing.
pub proof fn lemma_only_host_displays(state: DaemonView, event: EventView)
    requires
        state.next(event).1.display is Some,
    ensures
        state.host is Host,
        event matches EventView::Received(msg) && msg.method == Method::NewNotification
            && msg.payload == PayloadView::Notification(state.next(event).1.display->0),
{
}

/// The sentinel request is accepted and ignored: nothing is answered, shown
/// or changed.
pub proof fn lemma_done_is_ignored(state: DaemonView, payload: PayloadView)
    ensures
        state.next(EventView::Received(MessageView { method: Method::Done, payload })) == (
            state,
            ActionsView::nothing(),
        ),
{
}

/// The periodic search does nothing for the host and for a client that
/// knows its host.
pub proof fn lemma_tick_only_searches_without_host(state: DaemonView)
    requires
        state.host != AppMode::<Address>::Client(None),
    ensures
        state.next(EventView::Tick) == (state, ActionsView::nothing()),
{
}

/// The search for the host: a client without a host whose address book
/// begins with `peer` asks `peer` when the timer ticks; `peer`, being the
/// host, names itself; and with that answer the client becomes the client
/// of `peer`, and the search is over.
pub proof fn lemma_search_finds_host(seeker: DaemonView, peer: DaemonView)
    requires
        seeker.host == AppMode::<Address>::Client(None),
        seeker.book.len() > 0,
        seeker.book[0] == peer.addr,
        peer.host is Host,
    ensures
        ({
            let (asking, asked) = seeker.next(EventView::Tick);
            let request = asked.request->0;
            let (_, answered) = peer.next(EventView::Received(request.message));
            let (found, then) = asking.next(
                EventView::Answered { op: request.op, peer: request.peer, response: answered.reply },
            );
            &&& asked.request is Some
            &&& request.peer == peer.addr
            &&& answered.reply == Some(
                ResponseView::success(PayloadView::of_address(peer.addr)),
            )
            &&& found.host == AppMode::Client(Some(peer.addr))
            &&& then == ActionsView::nothing()
        }),
{
}

/// The handover: a client that becomes the host on the operator's command
/// tells its former host, and the former host, until then the host,
/// becomes its client. The new host stays the host when it reads the
/// answer.
pub proof fn lemma_handover(rising: DaemonView, former: DaemonView)
    requires
        rising.host == AppMode::Client(Some(former.addr)),
        former.host is Host,
    ensures
        ({
            let (risen, told) = rising.next(EventView::Tray(TrayEvent::BecomeHost));
            let request = told.request->0;
            let (demoted, answered) = former.next(EventView::Received(request.message));
            let (settled, then) = risen.next(
                EventView::Answered { op: request.op, peer: request.peer, response: answered.reply },
            );
            &&& risen.host is Host
            &&& told.icon == Some(TrayIcon::Host)
            &&& told.request is Some
            &&& request.peer == former.addr
            &&& request.message == im_host_request(rising.addr)
            &&& demoted.host == AppMode::Client(Some(rising.addr))
            &&& answered.reply == Some(ResponseView::empty())
            &&& settled.host is Host
            &&& then == ActionsView::nothing()
        }),
{
}

/// The stale host: a client forwards a notification to the node that it
/// takes for the host; that node is itself a client of `actual` and sends
/// it on there; the forwarding client becomes a client of `actual`. The
/// notification is displayed nowhere, and nothing more is asked.
pub proof fn lemma_stale_host_is_corrected(
    sender: DaemonView,
    stale: DaemonView,
    actual: Address,
    notif: NotificationView,
)
    requires
        sender.host == AppMode::Client(Some(stale.addr)),
        stale.host == AppMode::Client(Some(actual)),
        notif.app_name != OWN_APP_NAME@,
    ensures
        ({
            let (sending, sent) = sender.next(EventView::Notified(notif));
            let request = sent.request->0;
            let (unchanged, answered) = stale.next(EventView::Received(request.message));
            let (corrected, then) = sending.next(
                EventView::Answered { op: request.op, peer: request.peer, response: answered.reply },
            );
            &&& sent.request is Some
            &&& sent.display is None
            &&& request.peer == stale.addr
            &&& request.message == notification_request(notif)
            &&& unchanged == stale
            &&& answered.reply == Some(ResponseView::host_changed(actual))
            &&& answered.display is None
            &&& corrected.host == AppMode::Client(Some(actual))
            &&& then == ActionsView::nothing()
        }),
{
}

/// Whatever happens to a node: an answer that it gives obeys the rule of
/// the wire, and it gives one only to a request that is not the sentinel.
pub proof fn lemma_replies_are_well_formed(state: DaemonView, event: EventView)
    requires
        state.next(event).1.reply is Some,
    ensures
        state.next(event).1.reply->0.wf(),
        event matches EventView::Received(msg) && msg.method != Method::Done,
{
}

} // verus!
