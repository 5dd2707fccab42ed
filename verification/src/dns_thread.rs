//! What a worker does with one datagram.
//!
//! A worker reads datagrams from the shared socket and hands each, with its
//! sender and the time, to its [`DnsProcessor`]. The processor answers with an
//! [`Action`]: what to send and where, or that there is nothing to send. It
//! never touches the socket, so everything it decides is decided before the
//! first byte goes out.

use std::ops::Range;
use vstd::prelude::*;
use crate::custom_handler::HandlerHolder;
use crate::endpoint::Endpoint;
use crate::error::{Error, IoFailure};
use crate::id_range::{at_home, successor};
use crate::pending_queries::{lookup, PendingQuery, PendingStore, ThreadSafeStore};
use crate::action::{
    answer,
    answer_of,
    elapsed,
    lemma_answer_keeps_client_id,
    lemma_relay_restores_client_id,
    relay,
    relay_of,
    Action,
    ActionView,
};
use crate::wire::{
    has_id,
    id_of,
    lemma_with_id_reads_back,
    set_transaction_id,
    transaction_id,
    with_id,
};

verus! {

/// The size of the buffer that a worker reads a datagram into. A longer
/// datagram arrives cut to this length.
pub const READ_BUFFER_SIZE: usize = 1024;

/// How long a worker's read waits for a datagram before the worker looks at
/// the stop flag, in milliseconds.
pub const READ_TIMEOUT_MS: u64 = 500;

/// Why a worker got no datagram to process.
#[derive(Debug)]
pub enum ProcessingError {
    /// The stop flag was found set when a read ran out of time.
    Stopped(),
    /// A socket call failed for another reason than running out of time.
    IO(IoFailure),
}

impl From<IoFailure> for ProcessingError {
    fn from(failure: IoFailure) -> (error: ProcessingError) {
        ProcessingError::IO(failure)
    }
}

impl vstd::std_specs::convert::FromSpecImpl<IoFailure> for ProcessingError {
    open spec fn obeys_from_spec() -> bool {
        true
    }

    open spec fn from_spec(failure: IoFailure) -> ProcessingError {
        ProcessingError::IO(failure)
    }
}

impl ProcessingError {
    /// The text that describes the error.
    pub open spec fn text(&self) -> Seq<char> {
        match self {
            ProcessingError::Stopped() => "User stopped dns manually."@,
            ProcessingError::IO(failure) => failure.message@,
        }
    }

    /// The text that describes the error.
    pub fn message(&self) -> (message: String)
        ensures
            message@ == self.text(),
    {
        match self {
            ProcessingError::Stopped() => "User stopped dns manually.".to_string(),
            ProcessingError::IO(failure) => failure.message.clone(),
        }
    }
}

/// What a worker does after an error.
#[derive(Clone, Copy, Debug, PartialEq, Eq, Structural)]
pub enum Next {
    /// Leave the loop: the worker ends.
    Exit,
    /// Go on reading, after reporting the error where `report` is set.
    Continue { report: bool },
}

/// The first `size` bytes of `buffer`, and all of it where it has fewer.
pub open spec fn filled(buffer: Seq<u8>, size: usize) -> Seq<u8> {
    if size <= buffer.len() {
        buffer.take(size as int)
    } else {
        buffer
    }
}

/// What a worker has after one bounded read, with the datagram as a
/// sequence of bytes.
///
/// `read` is what the read returned: the number of bytes that it wrote to the
/// front of `buffer` and their sender, or its failure. `stop_requested` is the
/// stop flag as the worker found it after the read.
///
/// A datagram is handed out for processing. A read that ran out of time ends
/// the worker with [`ProcessingError::Stopped`] where the stop flag is set,
/// and is otherwise answered with `Ok(None)`: read again. Any other failure
/// is handed on.
pub open spec fn reception(
    buffer: Seq<u8>,
    read: Result<(usize, Endpoint), IoFailure>,
    stop_requested: bool,
) -> Result<Option<(Seq<u8>, Endpoint)>, ProcessingError> {
    match read {
        Ok((size, from)) => Ok(Some((filled(buffer, size), from))),
        Err(failure) => if failure.is_timeout() {
            if stop_requested {
                Err(ProcessingError::Stopped())
            } else {
                Ok(None)
            }
        } else {
            Err(ProcessingError::IO(failure))
        },
    }
}

/// What [`recv_from`] returned, with the datagram as a sequence of bytes.
pub open spec fn seen(received: Result<Option<(Vec<u8>, Endpoint)>, ProcessingError>) -> Result<
    Option<(Seq<u8>, Endpoint)>,
    ProcessingError,
> {
    match received {
        Ok(Some((datagram, from))) => Ok(Some((datagram@, from))),
        Ok(None) => Ok(None),
        Err(error) => Err(error),
    }
}

/// What a worker does after `error`: a stop ends it; a failed socket call
/// never does, and is reported by a verbose worker.
pub open spec fn next_after(verbose: bool, error: ProcessingError) -> Next {
    match error {
        ProcessingError::Stopped() => Next::Exit,
        ProcessingError::IO(_) => Next::Continue { report: verbose },
    }
}

/// A worker whose read runs out of time while the stop flag is set ends
/// there, and nothing else ends a worker.
pub proof fn lemma_stop_ends_worker(
    buffer: Seq<u8>,
    read: Result<(usize, Endpoint), IoFailure>,
    stop_requested: bool,
    verbose: bool,
)
    ensures
        (reception(buffer, read, stop_requested) matches Err(error) && next_after(verbose, error)
            == Next::Exit) <==> (read matches Err(failure) && failure.is_timeout()
            && stop_requested),
{
}

/// Turns the outcome of one bounded read into what the worker does next, as
/// [`reception`] says.
pub fn recv_from(
    buffer: &[u8],
    read: Result<(usize, Endpoint), IoFailure>,
    stop_requested: bool,
) -> (received: Result<Option<(Vec<u8>, Endpoint)>, ProcessingError>)
    ensures
        seen(received) == reception(buffer@, read, stop_requested),
{
    match read {
        Ok((size, from)) => {
            let end: usize = if size <= buffer.len() {
                size
            } else {
                buffer.len()
            };
            let mut datagram: Vec<u8> = Vec::new();
            let mut i: usize = 0;
            while i < end
                invariant
                    i <= end <= buffer@.len(),
                    datagram@ == buffer@.take(i as int),
                decreases end - i,
            {
                datagram.push(buffer[i]);
                i += 1;
            }
            assert(datagram@ =~= filled(buffer@, size));
            Ok(Some((datagram, from)))
        },
        Err(failure) => {
            if failure.is_timeout() {
                if stop_requested {
                    Err(ProcessingError::Stopped())
                } else {
                    Ok(None)
                }
            } else {
                Err(ProcessingError::IO(failure))
            }
        },
    }
}

/// Single DNS packet processor: the state of one worker between two
/// datagrams.
pub struct DnsProcessor {
    pending_queries: PendingStore,
    icann_resolver: Endpoint,
    next_id: u16,
    id_range: Range<u16>,
    handler: HandlerHolder,
    verbose: bool,
}

/// What a [`DnsProcessor`] holds.
pub struct ProcessorView {
    /// The table of pending queries, or the worker's handle to it.
    pub pending: PendingStore,
    /// The address of the upstream resolver.
    pub icann_resolver: Endpoint,
    /// The identifier that was allocated last, or the start of the range
    /// before the first allocation.
    pub cursor: u16,
    /// The identifiers that this worker allocates from.
    pub id_range: Range<u16>,
    /// The custom handler.
    pub handler: HandlerHolder,
    /// Whether the worker reports what it does.
    pub verbose: bool,
}

impl View for DnsProcessor {
    type V = ProcessorView;

    closed spec fn view(&self) -> ProcessorView {
        ProcessorView {
            pending: self.pending_queries,
            icann_resolver: self.icann_resolver,
            cursor: self.next_id,
            id_range: self.id_range,
            handler: self.handler,
            verbose: self.verbose,
        }
    }
}

/// Whether a processor went from `pre` to `post` and chose `action` by
/// forwarding the query `query` of the client `from`, received at `now`.
///
/// The query goes upstream under the next identifier of the worker's range,
/// and the table has got an entry under that identifier which holds the
/// query as the client sent it. A query without room for an identifier
/// changes nothing and sends nothing.
pub open spec fn forwarded(
    pre: ProcessorView,
    post: ProcessorView,
    action: ActionView,
    query: Vec<u8>,
    from: Endpoint,
    now: u64,
) -> bool {
    if has_id(query@) {
        let id = successor(pre.id_range, pre.cursor);
        &&& action == (ActionView::Forward {
            datagram: with_id(query@, id),
            to: pre.icann_resolver,
        })
        &&& pre.pending.inserted(
            post.pending,
            PendingQuery { from, query, received_at: now, icann_id: id },
        )
        &&& post == (ProcessorView { cursor: id, pending: post.pending, ..pre })
    } else {
        action == ActionView::Malformed && post == pre
    }
}

/// Whether a processor went from `pre` to `post` and chose `action` by
/// matching the upstream reply `reply`, received at `now`, with its pending
/// entry.
///
/// The entry under the reply's identifier left the table, and the action is
/// what [`relay_of`] makes of the reply and that entry. A reply without room
/// for an identifier changes nothing and sends nothing.
pub open spec fn relayed(
    pre: ProcessorView,
    post: ProcessorView,
    action: ActionView,
    reply: Seq<u8>,
    now: u64,
) -> bool {
    if has_id(reply) {
        &&& exists|found: Option<PendingQuery>|
            #[trigger] pre.pending.removed(post.pending, id_of(reply), found) && action
                == relay_of(reply, found, now)
        &&& post == (ProcessorView { pending: post.pending, ..pre })
    } else {
        action == ActionView::Malformed && post == pre
    }
}

/// Whether a processor went from `pre` to `post` and chose `action` for the
/// query `query` of the client `from`, received at `now`, to which the
/// handler said `lookup`.
///
/// An answer of the handler goes back to the client and leaves the
/// processor as it is: no identifier is allocated and the table is not
/// touched. A query that the handler declined is forwarded.
pub open spec fn handled(
    pre: ProcessorView,
    post: ProcessorView,
    action: ActionView,
    query: Vec<u8>,
    from: Endpoint,
    now: u64,
    lookup: Result<Vec<u8>, Error>,
) -> bool {
    match lookup {
        Ok(reply) => action == answer_of(reply@, query@, from) && post == pre,
        Err(_) => forwarded(pre, post, action, query, from, now),
    }
}

/// Whether a processor went from `pre` to `post` and chose `action` for the
/// datagram `datagram` that came from `from` at `now`.
///
/// A datagram from the upstream resolver's address is a reply and is
/// matched with its pending entry. Any other datagram is a client's query:
/// it is offered to the handler as it arrived, and then answered or
/// forwarded as the handler said. A datagram without room for an identifier
/// changes nothing and sends nothing.
pub open spec fn processed(
    pre: ProcessorView,
    post: ProcessorView,
    action: ActionView,
    datagram: Vec<u8>,
    from: Endpoint,
    now: u64,
) -> bool {
    if !has_id(datagram@) {
        action == ActionView::Malformed && post == pre
    } else if from == pre.icann_resolver {
        relayed(pre, post, action, datagram@, now)
    } else {
        exists|lookup: Result<Vec<u8>, Error>|
            {
                &&& #[trigger] pre.handler.answers(datagram@, lookup)
                &&& handled(pre, post, action, datagram, from, now, lookup)
            }
    }
}

/// Whether `action` sends `reply` to the client of the pending entry `entry`
/// under the identifier of that client's query, with every byte behind the
/// identifier as it is in `reply`.
pub open spec fn restores(action: ActionView, entry: PendingQuery, reply: Seq<u8>) -> bool {
    &&& has_id(entry.query@)
    &&& action matches ActionView::Relay { datagram, to, .. }
    &&& to == entry.from
    &&& datagram.len() == reply.len()
    &&& datagram[0] == entry.query@[0]
    &&& datagram[1] == entry.query@[1]
    &&& forall|i: int| 2 <= i < reply.len() ==> datagram[i] == reply[i]
}

/// Whatever a worker sends to a client as the handler's answer goes to the
/// client that asked, under the identifier of its query. Such an answer
/// leaves the processor as it was: no identifier is allocated, no pending
/// entry is made, and nothing goes upstream.
pub proof fn lemma_answer_is_transparent(
    pre: ProcessorView,
    post: ProcessorView,
    action: ActionView,
    datagram: Vec<u8>,
    from: Endpoint,
    now: u64,
)
    requires
        processed(pre, post, action, datagram, from, now),
        action is Answer,
    ensures
        from != pre.icann_resolver,
        post == pre,
        action matches ActionView::Answer { datagram: sent, to } && {
            &&& to == from
            &&& sent[0] == datagram@[0]
            &&& sent[1] == datagram@[1]
        },
{
    let lookup = choose|lookup: Result<Vec<u8>, Error>|
        {
            &&& #[trigger] pre.handler.answers(datagram@, lookup)
            &&& handled(pre, post, action, datagram, from, now, lookup)
        };
    lemma_answer_keeps_client_id(lookup->Ok_0@, datagram@, from);
}

/// Whatever a worker sends upstream is a client's query under an identifier
/// of the worker's choice, and the pending entry for it is in the table when
/// the action is chosen: whoever sends the datagram of the action sends it
/// after the insertion.
pub proof fn lemma_forward_is_recorded(
    pre: ProcessorView,
    post: ProcessorView,
    action: ActionView,
    datagram: Vec<u8>,
    from: Endpoint,
    now: u64,
)
    requires
        processed(pre, post, action, datagram, from, now),
        action is Forward,
    ensures
        from != pre.icann_resolver,
        forwarded(pre, post, action, datagram, from, now),
        action matches ActionView::Forward { datagram: sent, to } && {
            &&& to == pre.icann_resolver
            &&& sent.len() == datagram@.len()
            &&& id_of(sent) == successor(pre.id_range, pre.cursor)
            &&& forall|i: int| 2 <= i < sent.len() ==> sent[i] == datagram@[i]
            &&& pre.pending.inserted(
                post.pending,
                PendingQuery { from, query: datagram, received_at: now, icann_id: id_of(sent) },
            )
            &&& post.pending matches PendingStore::Simple(table) ==> lookup(table@, id_of(sent))
                == Some(
                PendingQuery { from, query: datagram, received_at: now, icann_id: id_of(sent) },
            )
        },
{
    lemma_with_id_reads_back(datagram@, successor(pre.id_range, pre.cursor));
}

/// Whatever a worker sends on from upstream goes to the client of the
/// pending entry that left the table for it, under the identifier of that
/// client's query, and is otherwise the upstream's reply byte for byte.
pub proof fn lemma_relay_is_transparent(
    pre: ProcessorView,
    post: ProcessorView,
    action: ActionView,
    datagram: Vec<u8>,
    from: Endpoint,
    now: u64,
)
    requires
        processed(pre, post, action, datagram, from, now),
        action is Relay,
    ensures
        from == pre.icann_resolver,
        exists|entry: PendingQuery|
            {
                &&& #[trigger] pre.pending.removed(post.pending, id_of(datagram@), Some(entry))
                &&& restores(action, entry, datagram@)
            },
{
    let found = choose|found: Option<PendingQuery>|
        #[trigger] pre.pending.removed(post.pending, id_of(datagram@), found) && action
            == relay_of(datagram@, found, now);
    let entry = found->Some_0;
    lemma_relay_restores_client_id(datagram@, entry, now);
    assert(pre.pending.removed(post.pending, id_of(datagram@), Some(entry)));
}

/// With a table of its own, a worker returns the reply to a query that it
/// forwarded to the client that sent the query, under the identifier that
/// this client chose, and the entry of the query is then gone from the
/// table.
pub proof fn lemma_reply_returns_under_client_id(
    before: ProcessorView,
    waiting: ProcessorView,
    after: ProcessorView,
    forward: ActionView,
    relay: ActionView,
    query: Vec<u8>,
    from: Endpoint,
    now: u64,
    reply: Vec<u8>,
    later: u64,
)
    requires
        before.pending is Simple,
        processed(before, waiting, forward, query, from, now),
        forward matches ActionView::Forward { datagram, .. } && has_id(reply@) && id_of(reply@)
            == id_of(datagram),
        processed(waiting, after, relay, reply, before.icann_resolver, later),
    ensures
        restores(relay, PendingQuery { from, query, received_at: now, icann_id: id_of(reply@) }, reply@),
        relay matches ActionView::Relay { waited_ms, .. } && waited_ms == elapsed(now, later),
        after.pending matches PendingStore::Simple(table) && lookup(table@, id_of(reply@)) is None,
{
    lemma_forward_is_recorded(before, waiting, forward, query, from, now);
    lemma_relay_restores_client_id(
        reply@,
        PendingQuery { from, query, received_at: now, icann_id: id_of(reply@) },
        later,
    );
}

/// A reply from upstream under an identifier that the worker's own table has
/// no entry for sends nothing and leaves the table as it is.
pub proof fn lemma_orphan_changes_nothing(
    pre: ProcessorView,
    post: ProcessorView,
    action: ActionView,
    datagram: Vec<u8>,
    now: u64,
)
    requires
        processed(pre, post, action, datagram, pre.icann_resolver, now),
        has_id(datagram@),
        pre.pending matches PendingStore::Simple(table) && lookup(table@, id_of(datagram@))
            is None,
    ensures
        action == ActionView::Orphan,
        !action.sends(),
        post.pending matches PendingStore::Simple(table) && table@ == pre.pending->Simple_0@,
{
    let table = pre.pending->Simple_0;
    assert(table@.remove(id_of(datagram@)) =~= table@);
}

/// Where the handler declines whatever it is asked, every client's query is
/// forwarded.
pub proof fn lemma_declined_query_is_forwarded(
    pre: ProcessorView,
    post: ProcessorView,
    action: ActionView,
    datagram: Vec<u8>,
    from: Endpoint,
    now: u64,
)
    requires
        processed(pre, post, action, datagram, from, now),
        has_id(datagram@),
        from != pre.icann_resolver,
        forall|answer: Result<Vec<u8>, Error>|
            #[trigger] pre.handler.answers(datagram@, answer) ==> answer is Err,
    ensures
        forwarded(pre, post, action, datagram, from, now),
{
}

/// A forwarded query goes upstream under an identifier of the worker's own
/// range, and the worker's cursor stays in that range.
pub proof fn lemma_forward_uses_own_range(
    pre: ProcessorView,
    post: ProcessorView,
    action: ActionView,
    query: Vec<u8>,
    from: Endpoint,
    now: u64,
)
    requires
        forwarded(pre, post, action, query, from, now),
        at_home(pre.id_range, pre.cursor),
    ensures
        post.id_range == pre.id_range,
        at_home(post.id_range, post.cursor),
        action matches ActionView::Forward { datagram, .. } ==> id_of(datagram) == post.cursor,
{
    if has_id(query@) {
        lemma_with_id_reads_back(query@, successor(pre.id_range, pre.cursor));
    }
}

impl DnsProcessor {
    /// Creates a processor for a worker that shares its table of pending
    /// queries with other workers.
    ///
    /// `icann_resolver` is the upstream resolver, `pending_queries` a handle
    /// to the shared table, `id_range` the range of transaction identifiers
    /// that this worker may use towards the upstream resolver, `handler` the
    /// custom handler.
    pub fn new_threadsafe(
        icann_resolver: Endpoint,
        pending_queries: ThreadSafeStore,
        id_range: Range<u16>,
        handler: HandlerHolder,
        verbose: bool,
    ) -> (processor: Self)
        ensures
            processor@ == (ProcessorView {
                pending: PendingStore::ThreadSafe(pending_queries),
                icann_resolver,
                cursor: id_range.start,
                id_range,
                handler,
                verbose,
            }),
    {
        Self::new(
            icann_resolver,
            PendingStore::ThreadSafe(pending_queries),
            id_range,
            handler,
            verbose,
        )
    }

    /// Creates a processor over any table of pending queries. With a
    /// [`PendingStore::Simple`] table the processor is for a single worker.
    pub fn new(
        icann_resolver: Endpoint,
        pending_queries: PendingStore,
        id_range: Range<u16>,
        handler: HandlerHolder,
        verbose: bool,
    ) -> (processor: Self)
        ensures
            processor@ == (ProcessorView {
                pending: pending_queries,
                icann_resolver,
                cursor: id_range.start,
                id_range,
                handler,
                verbose,
            }),
    {
        let next_id = id_range.start;
        DnsProcessor { pending_queries, icann_resolver, next_id, id_range, handler, verbose }
    }

    /// The address of the upstream resolver.
    pub fn icann_resolver(&self) -> (address: Endpoint)
        ensures
            address == self@.icann_resolver,
    {
        self.icann_resolver
    }

    /// Whether the worker reports what it does.
    pub fn verbose(&self) -> (verbose: bool)
        ensures
            verbose == self@.verbose,
    {
        self.verbose
    }

    /// The identifiers that this worker allocates from.
    pub fn id_range(&self) -> (range: Range<u16>)
        ensures
            range == self@.id_range,
    {
        Range { start: self.id_range.start, end: self.id_range.end }
    }

    /// The identifier that was allocated last, or the start of the range
    /// before the first allocation.
    pub fn last_id(&self) -> (id: u16)
        ensures
            id == self@.cursor,
    {
        self.next_id
    }

    /// The table of pending queries, or the worker's handle to it.
    pub fn pending_queries(&self) -> (pending: &PendingStore)
        ensures
            *pending == self@.pending,
    {
        &self.pending_queries
    }

    /// What the worker does after `error`, as [`next_after`] says.
    pub fn after_failure(&self, error: &ProcessingError) -> (next: Next)
        ensures
            next == next_after(self@.verbose, *error),
    {
        match error {
            ProcessingError::Stopped() => Next::Exit,
            ProcessingError::IO(_) => Next::Continue { report: self.verbose },
        }
    }

    /// Allocates the transaction identifier for the next query that goes
    /// upstream: the one after the last, and the start of the range again
    /// after the last of the range.
    pub fn next_id(&mut self) -> (id: u16)
        ensures
            id == successor(old(self)@.id_range, old(self)@.cursor),
            final(self)@ == (ProcessorView { cursor: id, ..old(self)@ }),
    {
        let id: u16 = if self.next_id >= self.id_range.end || self.next_id + 1 >= self.id_range.end {
            self.id_range.start
        } else {
            self.next_id + 1
        };
        self.next_id = id;
        id
    }

    /// Forward query to the upstream resolver.
    ///
    /// The pending entry is in the table when this function returns, and so
    /// before the worker can send the datagram of the action.
    pub fn forward_to_icann(&mut self, query: Vec<u8>, from: Endpoint, now: u64) -> (action: Action)
        ensures
            forwarded(old(self)@, final(self)@, action@, query, from, now),
    {
        if query.len() < 2 {
            return Action::Malformed;
        }
        let mut datagram = query.clone();
        let id = self.next_id();
        set_transaction_id(&mut datagram, id);
        self.pending_queries.insert(PendingQuery { icann_id: id, query, from, received_at: now });
        Action::Forward { datagram, to: self.icann_resolver }
    }

    /// Send answers to client: matches a reply of the upstream resolver with
    /// the pending entry under its identifier, takes the entry out, and
    /// addresses the reply to the client that waits for it.
    pub fn respond_to_client(&mut self, reply: Vec<u8>, now: u64) -> (action: Action)
        ensures
            relayed(old(self)@, final(self)@, action@, reply@, now),
    {
        match transaction_id(&reply) {
            Some(id) => {
                let found = self.pending_queries.remove(&id);
                relay(reply, found, now)
            },
            None => Action::Malformed,
        }
    }

    /// Decides what to do with the client's query `query`, given what the
    /// handler said to it: an answer of the handler goes back to the client
    /// and leaves the processor as it is; a query that the handler declined
    /// is forwarded.
    pub fn handle_client_query(
        &mut self,
        query: Vec<u8>,
        from: Endpoint,
        now: u64,
        lookup: Result<Vec<u8>, Error>,
    ) -> (action: Action)
        ensures
            handled(old(self)@, final(self)@, action@, query, from, now, lookup),
    {
        match lookup {
            Ok(reply) => answer(reply, &query, from),
            Err(_) => self.forward_to_icann(query, from, now),
        }
    }

    /// Process one datagram that the worker received from `from` at `now`.
    ///
    /// A datagram from the upstream resolver's address is a reply and is
    /// matched with its pending entry. Any other datagram is a client's query:
    /// it is offered to the handler as it arrived, and then answered or
    /// forwarded as the handler said. A datagram of fewer than two bytes is
    /// dropped unseen.
    pub fn process_packet(&mut self, datagram: Vec<u8>, from: Endpoint, now: u64) -> (action:
        Action)
        ensures
            processed(old(self)@, final(self)@, action@, datagram, from, now),
    {
        if datagram.len() < 2 {
            return Action::Malformed;
        }
        if from == self.icann_resolver {
            self.respond_to_client(datagram, now)
        } else {
            let lookup = self.handler.call(&datagram);
            self.handle_client_query(datagram, from, now, lookup)
        }
    }
}

} // verus!
