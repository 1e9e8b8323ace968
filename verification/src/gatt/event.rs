//! Events delivered to the application, and the channel ends they travel on.
//!
//! Incoming reads, writes and notification subscriptions become [`Event`]s
//! sent into the bounded channel an attribute was declared with.  Each
//! read or write carries a one-shot responder; the application must reply
//! to it exactly once.

use vstd::prelude::*;

use futures::channel::mpsc;
use futures::channel::oneshot;

verus! {

/// A bounded multi-producer channel sender of the `futures` crate.  Values
/// of it are opaque here; the unverified runtime around the library clones
/// it and performs the sends.
#[verifier::external_type_specification]
#[verifier::external_body]
#[verifier::reject_recursive_types(T)]
pub struct ExMpscSender<T>(mpsc::Sender<T>);

/// A one-shot channel sender of the `futures` crate, used for the reply to
/// a single read or write request.  Opaque here.
#[verifier::external_type_specification]
#[verifier::external_body]
#[verifier::reject_recursive_types(T)]
pub struct ExOneshotSender<T>(oneshot::Sender<T>);

/// Relies on the `Clone` impl of `futures::channel::mpsc::Sender`: a clone
/// is a new handle sending into the same channel.  Nothing is assumed of
/// the returned value.
pub assume_specification<T>[ <mpsc::Sender<T> as Clone>::clone ](sender: &mpsc::Sender<T>) -> (r:
    mpsc::Sender<T>);

/// The sending end of an attribute's event channel.
pub type EventSender = mpsc::Sender<Event>;

/// The responder embedded in a read or write request.
pub type ResponseSender = oneshot::Sender<Response>;

/// An event delivered to the application.
#[derive(Debug)]
pub enum Event {
    ReadRequest(ReadRequest),
    WriteRequest(WriteRequest),
    NotifySubscribe(NotifySubscribe),
    NotifyUnsubscribe,
}

/// A central asked to read the attribute's value.
#[derive(Debug)]
pub struct ReadRequest {
    pub offset: u16,
    pub mtu: u16,
    pub response: ResponseSender,
}

/// A central asked to write the attribute's value.
#[derive(Debug)]
pub struct WriteRequest {
    pub data: Vec<u8>,
    pub offset: u16,
    pub without_response: bool,
    pub response: ResponseSender,
}

/// A central subscribed to notifications; outbound bytes pushed onto
/// `notification` are fanned out as `PropertiesChanged` signals.
#[derive(Debug, Clone)]
pub struct NotifySubscribe {
    pub notification: mpsc::Sender<Vec<u8>>,
}

/// The application's reply to a read or write request.
#[derive(Debug, Clone)]
pub enum Response {
    Success(Vec<u8>),
    InvalidOffset,
    InvalidAttributeLength,
    UnlikelyError,
}

} // verus!
