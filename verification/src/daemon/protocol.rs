//! The values of the protocol: requests, answers and what they carry.

use crate::addr::Address;
use crate::notification::{Notification, NotificationView};
use std::collections::HashMap;
use vstd::prelude::*;

verus! {

/// What a request asks for.
#[derive(Clone, Copy, Debug, PartialEq, Eq, Structural)]
pub enum Method {
    /// Nothing: a receiver accepts it and does not answer.
    Done,
    Ping,
    NewNotification,
    GetHost,
    ImHost,
}

/// What a request or an answer carries.
#[derive(Clone, Debug, PartialEq, Eq)]
pub enum Payload {
    Text(String),
    Number(u64),
    List(Vec<String>),
    Dictionary(HashMap<String, String>),
    Raw(Vec<u8>),
    Notification(Notification),
    Address(u8, u8, u8, u8, u16),
    Empty,
}

/// What a [`Payload`] holds, as mathematical values.
pub enum PayloadView {
    Text(Seq<char>),
    Number(u64),
    List(Seq<Seq<char>>),
    Dictionary(Map<Seq<char>, Seq<char>>),
    Raw(Seq<u8>),
    Notification(NotificationView),
    Address(u8, u8, u8, u8, u16),
    Empty,
}

impl View for Payload {
    type V = PayloadView;

    open spec fn view(&self) -> PayloadView {
        match self {
            Payload::Text(s) => PayloadView::Text(s@),
            Payload::Number(n) => PayloadView::Number(*n),
            Payload::List(l) => PayloadView::List(l.deep_view()),
            Payload::Dictionary(d) => PayloadView::Dictionary(d.deep_view()),
            Payload::Raw(r) => PayloadView::Raw(r@),
            Payload::Notification(n) => PayloadView::Notification(n@),
            Payload::Address(a, b, c, d, port) => PayloadView::Address(*a, *b, *c, *d, *port),
            Payload::Empty => PayloadView::Empty,
        }
    }
}

impl PayloadView {
    /// The payload that names `addr`.
    pub open spec fn of_address(addr: Address) -> PayloadView {
        PayloadView::Address(addr.ip.a, addr.ip.b, addr.ip.c, addr.ip.d, addr.port)
    }

    /// The address that the payload names, if it names one.
    pub open spec fn address(self) -> Option<Address> {
        match self {
            PayloadView::Address(a, b, c, d, port) => Some(Address::from_parts(a, b, c, d, port)),
            _ => None,
        }
    }
}

impl Payload {
    /// The payload that names `addr`.
    pub fn of_address(addr: Address) -> (p: Payload)
        ensures
            p@ == PayloadView::of_address(addr),
    {
        Payload::Address(addr.ip.a, addr.ip.b, addr.ip.c, addr.ip.d, addr.port)
    }

    /// The address that the payload names, if it names one.
    pub fn address(&self) -> (r: Option<Address>)
        ensures
            r == self@.address(),
    {
        match self {
            Payload::Address(a, b, c, d, port) => Some(Address::new(*a, *b, *c, *d, *port)),
            _ => None,
        }
    }
}

/// A request.
#[derive(Clone, Debug, PartialEq, Eq)]
pub struct Message {
    pub method: Method,
    pub payload: Payload,
}

/// What a [`Message`] holds, as mathematical values.
pub struct MessageView {
    pub method: Method,
    pub payload: PayloadView,
}

impl View for Message {
    type V = MessageView;

    open spec fn view(&self) -> MessageView {
        MessageView { method: self.method, payload: self.payload@ }
    }
}

impl Message {
    /// Whether the request is the sentinel that asks for nothing.
    pub fn is_done(&self) -> (r: bool)
        ensures
            r == (self.method == Method::Done),
    {
        self.method == Method::Done
    }
}

/// How a request ended.
#[derive(Clone, Copy, Debug, PartialEq, Eq, Structural)]
pub enum ResponseStatus {
    Success,
    Failed,
    /// The node that was asked is not the host; the answer names the host.
    HostChanged,
}

/// An answer to a request.
#[derive(Clone, Debug, PartialEq, Eq)]
pub struct Response {
    pub status: ResponseStatus,
    pub result: Option<Payload>,
}

/// What a [`Response`] holds, as mathematical values.
pub struct ResponseView {
    pub status: ResponseStatus,
    pub result: Option<PayloadView>,
}

impl View for Response {
    type V = ResponseView;

    open spec fn view(&self) -> ResponseView {
        ResponseView {
            status: self.status,
            result: match self.result {
                Some(p) => Some(p@),
                None => None,
            },
        }
    }
}

impl ResponseView {
    /// A success that carries `payload`.
    pub open spec fn success(payload: PayloadView) -> ResponseView {
        ResponseView { status: ResponseStatus::Success, result: Some(payload) }
    }

    /// A success that carries nothing.
    pub open spec fn empty() -> ResponseView {
        ResponseView { status: ResponseStatus::Success, result: None }
    }

    /// A failure; it carries nothing.
    pub open spec fn failed() -> ResponseView {
        ResponseView { status: ResponseStatus::Failed, result: None }
    }

    /// A redirect to the host at `host`.
    pub open spec fn host_changed(host: Address) -> ResponseView {
        ResponseView {
            status: ResponseStatus::HostChanged,
            result: Some(PayloadView::of_address(host)),
        }
    }

    /// The rule every answer on the wire obeys: a redirect names an address,
    /// a failure carries nothing, a success may carry anything or nothing.
    pub open spec fn wf(self) -> bool {
        match self.status {
            ResponseStatus::Success => true,
            ResponseStatus::Failed => self.result is None,
            ResponseStatus::HostChanged => self.result matches Some(p) && p is Address,
        }
    }

    /// The host that a redirect names: `Some` exactly for a redirect that
    /// carries an address.
    pub open spec fn redirect(self) -> Option<Address> {
        match (self.status, self.result) {
            (ResponseStatus::HostChanged, Some(p)) => p.address(),
            _ => None,
        }
    }
}

impl Response {
    /// A success that carries `payload`.
    pub fn success(payload: Payload) -> (r: Response)
        ensures
            r@ == ResponseView::success(payload@),
            r.status == ResponseStatus::Success,
            r.result == Some(payload),
    {
        Response { status: ResponseStatus::Success, result: Some(payload) }
    }

    /// A success that carries nothing.
    pub fn empty() -> (r: Response)
        ensures
            r@ == ResponseView::empty(),
    {
        Response { status: ResponseStatus::Success, result: None }
    }

    /// A failure.
    pub fn failed() -> (r: Response)
        ensures
            r@ == ResponseView::failed(),
    {
        Response { status: ResponseStatus::Failed, result: None }
    }

    /// A redirect to the host at `host`.
    pub fn host_changed(host: Address) -> (r: Response)
        ensures
            r@ == ResponseView::host_changed(host),
    {
        Response { status: ResponseStatus::HostChanged, result: Some(Payload::of_address(host)) }
    }

    /// Whether the answer is a redirect.
    pub fn is_host_changed(&self) -> (r: bool)
        ensures
            r == (self@.status == ResponseStatus::HostChanged),
    {
        self.status == ResponseStatus::HostChanged
    }

    /// Whether the answer is a failure.
    pub fn is_failed(&self) -> (r: bool)
        ensures
            r == (self@.status == ResponseStatus::Failed),
    {
        self.status == ResponseStatus::Failed
    }
}

/// Each constructor of an answer gives one that obeys the rule of the wire.
pub proof fn lemma_constructors_wf(payload: PayloadView, host: Address)
    ensures
        ResponseView::success(payload).wf(),
        ResponseView::empty().wf(),
        ResponseView::failed().wf(),
        ResponseView::host_changed(host).wf(),
        ResponseView::host_changed(host).redirect() == Some(host),
{
}

} // verus!
