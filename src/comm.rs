//! The typed request/response bus between the frontend and the worker: the
//! request trait, the envelope that carries an erased request to the worker,
//! the registry of handlers keyed by request discriminator, and the rules by
//! which the frontend's side turns what came back into a response or a
//! transport error.
use vstd::prelude::*;
use std::collections::HashMap;
use crate::bridge::{decimal, text_with_code, CaptureOutcome, CompletionSlot, SlotView};

verus! {

broadcast use vstd::std_specs::hash::group_hash_axioms;

/// A request kind: its type fixes the type of its response.
pub trait CommRequest {
    type Response;

    /// The discriminator under which this request kind's handler is registered.
    fn type_id() -> u64;
}

/// Discriminator of `TakePictureRequest`.
pub const TAKE_PICTURE_REQUEST_ID: u64 = 1;

/// Asks the worker to capture a photo; answered with the captured item's name
/// or a human-readable error.
#[derive(PartialEq, Eq, Structural, Clone, Copy, Debug)]
pub struct TakePictureRequest;

impl CommRequest for TakePictureRequest {
    type Response = Result<String, String>;

    fn type_id() -> (r: u64) {
        TAKE_PICTURE_REQUEST_ID
    }
}

/// Turns a capture outcome into the response handed to the frontend.
pub fn capture_response(outcome: CaptureOutcome) -> (r: Result<String, String>)
    ensures
        match outcome {
            Ok(name) => r == Ok::<String, String>(name),
            Err(e) => r matches Err(m) && m@ == e.message_spec(),
        },
{
    match outcome {
        Ok(name) => Ok(name),
        Err(e) => Err(e.message()),
    }
}

/// An erased request on its way to the worker: its discriminator, its payload
/// and the single-use channel on which its response goes back.
pub struct CommRequestEnvelope<P, S> {
    type_id: u64,
    payload: P,
    responder: S,
}

impl<P, S> CommRequestEnvelope<P, S> {
    pub closed spec fn spec_type_id(&self) -> u64 {
        self.type_id
    }

    pub closed spec fn spec_payload(&self) -> P {
        self.payload
    }

    pub closed spec fn spec_responder(&self) -> S {
        self.responder
    }

    pub fn new(type_id: u64, payload: P, responder: S) -> (r: Self)
        ensures
            r.spec_type_id() == type_id,
            r.spec_payload() == payload,
            r.spec_responder() == responder,
    {
        CommRequestEnvelope { type_id, payload, responder }
    }

    pub fn type_id(&self) -> (r: u64)
        ensures
            r == self.spec_type_id(),
    {
        self.type_id
    }

    /// Opens the envelope; the worker does so exactly once.
    pub fn into_parts(self) -> (r: (u64, P, S))
        ensures
            r == (self.spec_type_id(), self.spec_payload(), self.spec_responder()),
    {
        (self.type_id, self.payload, self.responder)
    }
}

/// A structural failure of the bus, kept apart from any response.
#[derive(PartialEq, Eq, Structural, Clone, Copy, Debug)]
pub enum TransportError {
    /// The worker's queue was closed: the request never reached the worker.
    NotDelivered,
    /// The worker dropped the responder without replying.
    NoResponse,
    /// The reply was not of the request's response type.
    ResponseMismatch,
}

pub open spec fn not_delivered_text() -> Seq<char> {
    "Failed to send request to camera thread"@
}

pub open spec fn no_response_text() -> Seq<char> {
    "Camera thread did not respond"@
}

pub open spec fn response_mismatch_text() -> Seq<char> {
    "Response type mismatch"@
}

impl TransportError {
    pub open spec fn message_spec(&self) -> Seq<char> {
        match *self {
            TransportError::NotDelivered => not_delivered_text(),
            TransportError::NoResponse => no_response_text(),
            TransportError::ResponseMismatch => response_mismatch_text(),
        }
    }

    pub fn message(&self) -> (r: String)
        ensures
            r@ == self.message_spec(),
    {
        match *self {
            TransportError::NotDelivered => "Failed to send request to camera thread".to_owned(),
            TransportError::NoResponse => "Camera thread did not respond".to_owned(),
            TransportError::ResponseMismatch => "Response type mismatch".to_owned(),
        }
    }
}

pub open spec fn resolve_reply_spec<T>(delivered: bool, received: bool, response: Option<T>) -> Result<
    T,
    TransportError,
> {
    if !delivered {
        Err(TransportError::NotDelivered)
    } else if !received {
        Err(TransportError::NoResponse)
    } else {
        match response {
            Some(v) => Ok(v),
            None => Err(TransportError::ResponseMismatch),
        }
    }
}

/// What the frontend's side of a request resolves to: whether the envelope
/// reached the worker's queue, whether a reply came back before the responder
/// was dropped, and the reply as the request's response type, if it is one.
pub fn resolve_reply<T>(delivered: bool, received: bool, response: Option<T>) -> (r: Result<
    T,
    TransportError,
>)
    ensures
        r == resolve_reply_spec(delivered, received, response),
{
    if !delivered {
        Err(TransportError::NotDelivered)
    } else if !received {
        Err(TransportError::NoResponse)
    } else {
        match response {
            Some(v) => Ok(v),
            None => Err(TransportError::ResponseMismatch),
        }
    }
}

/// Every request resolves to exactly one thing: the response the worker sent
/// when it was delivered and answered, a transport error otherwise.
pub proof fn lemma_exactly_one_outcome<T>(delivered: bool, received: bool, response: Option<T>)
    ensures
        resolve_reply_spec(delivered, received, response) is Ok <==> delivered && received
            && response is Some,
        resolve_reply_spec(delivered, received, response) matches Ok(v) ==> response == Some(v),
        resolve_reply_spec(delivered, received, response) is Err <==> !(delivered && received
            && response is Some),
{
}

/// Failure to find a handler for a request's discriminator: the request kind
/// was sent without being registered.
#[derive(PartialEq, Eq, Structural, Clone, Copy, Debug)]
pub enum DispatchError {
    Unregistered(u64),
}

pub open spec fn unregistered_prefix() -> Seq<char> {
    "No handler registered for request type "@
}

impl DispatchError {
    pub open spec fn message_spec(&self) -> Seq<char> {
        match *self {
            DispatchError::Unregistered(id) => unregistered_prefix() + decimal(id as nat),
        }
    }

    pub fn message(&self) -> (r: String)
        ensures
            r@ == self.message_spec(),
    {
        match *self {
            DispatchError::Unregistered(id) => text_with_code(
                "No handler registered for request type ",
                id,
            ),
        }
    }
}

/// What a handler gets besides its request: the worker's completion slot.
pub struct CommRequestHandlerContext {
    pub slot: CompletionSlot,
}

impl CommRequestHandlerContext {
    pub fn new() -> (r: Self)
        ensures
            r.slot@ == SlotView::released(),
    {
        CommRequestHandlerContext { slot: CompletionSlot::new() }
    }
}

/// The handler registry: one handler per request discriminator.
pub struct CommRequestHandler<H> {
    handlers: HashMap<u64, H>,
}

impl<H> View for CommRequestHandler<H> {
    type V = Map<u64, H>;

    closed spec fn view(&self) -> Map<u64, H> {
        self.handlers@
    }
}

impl<H> CommRequestHandler<H> {
    /// A registry with no handler.
    pub fn new() -> (r: Self)
        ensures
            r@ == Map::<u64, H>::empty(),
    {
        CommRequestHandler { handlers: HashMap::new() }
    }

    /// Registers `handler` for `type_id`. A handler registered before for the
    /// same discriminator is replaced, and the result says so.
    pub fn register(&mut self, type_id: u64, handler: H) -> (replaced: bool)
        ensures
            final(self)@ == old(self)@.insert(type_id, handler),
            replaced == old(self)@.contains_key(type_id),
    {
        let previous = self.handlers.insert(type_id, handler);
        previous.is_some()
    }

    pub fn is_registered(&self, type_id: u64) -> (r: bool)
        ensures
            r == self@.contains_key(type_id),
    {
        self.handlers.contains_key(&type_id)
    }

    /// The handler registered for `type_id`; a miss names the discriminator.
    pub fn lookup(&self, type_id: u64) -> (r: Result<&H, DispatchError>)
        ensures
            match r {
                Ok(h) => self@.contains_key(type_id) && *h == self@[type_id],
                Err(e) => !self@.contains_key(type_id) && e == DispatchError::Unregistered(
                    type_id,
                ),
            },
    {
        match self.handlers.get(&type_id) {
            Some(h) => Ok(h),
            None => Err(DispatchError::Unregistered(type_id)),
        }
    }
}

} // verus!
