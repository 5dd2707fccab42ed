//! What a worker has to put on the wire, and how a reply gets its address.
//!
//! The functions here decide from values alone: a datagram and what the
//! handler or the table of pending queries said to it. They hold no state, so
//! what they return for given values is fixed.

use vstd::prelude::*;
use crate::endpoint::Endpoint;
use crate::pending_queries::PendingQuery;
use crate::wire::{
    has_id,
    id_of,
    lemma_with_id_of_copies_head,
    set_transaction_id,
    transaction_id,
    with_id,
};

verus! {

/// What the worker has to do after the processor has seen a datagram.
#[derive(Debug)]
pub enum Action {
    /// The handler answered the query: send `datagram` to the client `to`.
    Answer { datagram: Vec<u8>, to: Endpoint },
    /// The handler declined the query and a pending entry was made for it:
    /// send `datagram` to the upstream resolver `to`.
    Forward { datagram: Vec<u8>, to: Endpoint },
    /// The upstream resolver answered a pending query: send `datagram` to the
    /// client `to`. The client waited `waited_ms` milliseconds.
    Relay { datagram: Vec<u8>, to: Endpoint, waited_ms: u64 },
    /// A reply from upstream that no pending entry waits for: send nothing.
    Orphan,
    /// A datagram too short to hold a transaction identifier: send nothing.
    Malformed,
}

/// An [`Action`] with its datagram as a sequence of bytes.
pub enum ActionView {
    Answer { datagram: Seq<u8>, to: Endpoint },
    Forward { datagram: Seq<u8>, to: Endpoint },
    Relay { datagram: Seq<u8>, to: Endpoint, waited_ms: u64 },
    Orphan,
    Malformed,
}

impl View for Action {
    type V = ActionView;

    open spec fn view(&self) -> ActionView {
        match *self {
            Action::Answer { datagram, to } => ActionView::Answer { datagram: datagram@, to },
            Action::Forward { datagram, to } => ActionView::Forward { datagram: datagram@, to },
            Action::Relay { datagram, to, waited_ms } => ActionView::Relay {
                datagram: datagram@,
                to,
                waited_ms,
            },
            Action::Orphan => ActionView::Orphan,
            Action::Malformed => ActionView::Malformed,
        }
    }
}

impl ActionView {
    /// Whether the action puts a datagram on the wire.
    pub open spec fn sends(self) -> bool {
        self is Answer || self is Forward || self is Relay
    }
}

/// The milliseconds from `since` to `now`, and zero where the clock was read
/// in the other order.
pub open spec fn elapsed(since: u64, now: u64) -> u64 {
    if now >= since {
        (now - since) as u64
    } else {
        0
    }
}

/// What follows from a handler's reply to the query `query` of the client
/// `from`: the reply goes to that client under the query's transaction
/// identifier, whatever identifier the handler gave it. A reply or a query
/// without room for an identifier sends nothing.
pub open spec fn answer_of(reply: Seq<u8>, query: Seq<u8>, from: Endpoint) -> ActionView {
    if has_id(reply) && has_id(query) {
        ActionView::Answer { datagram: with_id(reply, id_of(query)), to: from }
    } else {
        ActionView::Malformed
    }
}

/// What follows from a reply of the upstream resolver and the pending entry
/// that was found for it at `now`: the reply goes to the client of the entry
/// under the identifier of that client's query. Without an entry, or with one
/// whose query holds no identifier to restore, nothing is sent.
pub open spec fn relay_of(reply: Seq<u8>, pending: Option<PendingQuery>, now: u64) -> ActionView {
    match pending {
        Some(entry) => if has_id(reply) && has_id(entry.query@) {
            ActionView::Relay {
                datagram: with_id(reply, id_of(entry.query@)),
                to: entry.from,
                waited_ms: elapsed(entry.received_at, now),
            }
        } else {
            ActionView::Orphan
        },
        None => ActionView::Orphan,
    }
}

/// Decides what to do with the reply that a handler gave to `query`.
pub fn answer(reply: Vec<u8>, query: &Vec<u8>, from: Endpoint) -> (action: Action)
    ensures
        action@ == answer_of(reply@, query@, from),
{
    let mut reply = reply;
    match transaction_id(query) {
        Some(id) => {
            if set_transaction_id(&mut reply, id) {
                Action::Answer { datagram: reply, to: from }
            } else {
                Action::Malformed
            }
        },
        None => Action::Malformed,
    }
}

/// Decides what to do with a reply of the upstream resolver, given what the
/// table of pending queries held under the reply's identifier.
pub fn relay(reply: Vec<u8>, pending: Option<PendingQuery>, now: u64) -> (action: Action)
    ensures
        action@ == relay_of(reply@, pending, now),
{
    let mut reply = reply;
    match pending {
        Some(entry) => {
            match transaction_id(&entry.query) {
                Some(id) => {
                    if set_transaction_id(&mut reply, id) {
                        let waited_ms: u64 = if now >= entry.received_at {
                            now - entry.received_at
                        } else {
                            0
                        };
                        Action::Relay { datagram: reply, to: entry.from, waited_ms }
                    } else {
                        Action::Orphan
                    }
                },
                None => Action::Orphan,
            }
        },
        None => Action::Orphan,
    }
}

/// An answer of the handler reaches the client under the identifier of the
/// client's query, whatever identifier the handler wrote, and is otherwise
/// the handler's reply byte for byte.
pub proof fn lemma_answer_keeps_client_id(reply: Seq<u8>, query: Seq<u8>, from: Endpoint)
    requires
        has_id(reply),
        has_id(query),
    ensures
        answer_of(reply, query, from) matches ActionView::Answer { datagram, to } && {
            &&& to == from
            &&& datagram.len() == reply.len()
            &&& datagram[0] == query[0]
            &&& datagram[1] == query[1]
            &&& forall|i: int| 2 <= i < reply.len() ==> datagram[i] == reply[i]
        },
{
    lemma_with_id_of_copies_head(reply, query);
}

/// An answer of the handler never goes upstream.
pub proof fn lemma_answer_never_forwards(reply: Seq<u8>, query: Seq<u8>, from: Endpoint)
    ensures
        !(answer_of(reply, query, from) is Forward),
{
}

/// A reply is sent on to the client of the pending entry that was found for
/// it, under the identifier of that client's query, and is otherwise the
/// upstream's reply byte for byte.
pub proof fn lemma_relay_restores_client_id(reply: Seq<u8>, entry: PendingQuery, now: u64)
    requires
        has_id(reply),
        has_id(entry.query@),
    ensures
        relay_of(reply, Some(entry), now) matches ActionView::Relay { datagram, to, waited_ms }
            && {
            &&& to == entry.from
            &&& waited_ms == elapsed(entry.received_at, now)
            &&& datagram.len() == reply.len()
            &&& datagram[0] == entry.query@[0]
            &&& datagram[1] == entry.query@[1]
            &&& forall|i: int| 2 <= i < reply.len() ==> datagram[i] == reply[i]
        },
{
    lemma_with_id_of_copies_head(reply, entry.query@);
}

} // verus!
