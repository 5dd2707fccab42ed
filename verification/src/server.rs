//! Main server implementation: its configuration and its assembly.
//!
//! The builder collects the settings and assembles the server: one table of
//! pending queries, and for every worker a processor with a handle to that
//! table, a reference to the handler and a part of the identifier space that
//! no other worker has. Opening the socket and starting the threads is the
//! caller's part.

use std::ops::Range;
use std::sync::Arc;
use vstd::prelude::*;
use crate::custom_handler::{declined, CustomHandler, EmptyHandler, HandlerHolder};
use crate::dns_thread::{DnsProcessor, ProcessorView};
use crate::endpoint::Endpoint;
use crate::error::Error;
use crate::id_range::{
    at_home,
    id_range_of,
    lemma_bucket_bounds,
    lemma_workers_never_collide,
    successor,
};
use crate::pending_queries::{PendingStore, ThreadSafeStore};

verus! {

/// The settings of a server that is not built yet.
pub struct Builder {
    icann_resolver: Endpoint,
    listen: Endpoint,
    thread_count: u8,
    handler: HandlerHolder,
    verbose: bool,
}

/// What a [`Builder`] holds.
pub struct BuilderView {
    /// The address of the upstream resolver.
    pub icann_resolver: Endpoint,
    /// The address that the server listens on.
    pub listen: Endpoint,
    /// The number of workers.
    pub thread_count: u8,
    /// The custom handler.
    pub handler: HandlerHolder,
    /// Whether the workers report what they do.
    pub verbose: bool,
}

impl View for Builder {
    type V = BuilderView;

    closed spec fn view(&self) -> BuilderView {
        BuilderView {
            icann_resolver: self.icann_resolver,
            listen: self.listen,
            thread_count: self.thread_count,
            handler: self.handler,
            verbose: self.verbose,
        }
    }
}

/// The processor that worker `i` starts with, in a server built from
/// `config` around the shared table `table`.
pub open spec fn worker_of(config: BuilderView, table: ThreadSafeStore, i: int) -> ProcessorView {
    let id_range = id_range_of(config.thread_count as u16, i as u16);
    ProcessorView {
        pending: PendingStore::ThreadSafe(table),
        icann_resolver: config.icann_resolver,
        cursor: id_range.start,
        id_range,
        handler: config.handler,
        verbose: config.verbose,
    }
}

/// Whether `workers` are the processors of a server built from `config`
/// around the shared table `table`: one for each worker, in their order.
pub open spec fn assembled(
    config: BuilderView,
    table: ThreadSafeStore,
    workers: Seq<ProcessorView>,
) -> bool {
    &&& workers.len() == config.thread_count
    &&& forall|i: int|
        0 <= i < config.thread_count ==> #[trigger] workers[i] == worker_of(config, table, i)
}

/// Whether `config` holds the default settings: the upstream resolver
/// `192.168.1.1:53`, the listen address `0.0.0.0:53`, one worker, a handler
/// that declines everything, and no reports.
pub open spec fn default_settings(config: BuilderView) -> bool {
    &&& config.icann_resolver == Endpoint::v4(192, 168, 1, 1, 53)
    &&& config.listen == Endpoint::v4(0, 0, 0, 0, 53)
    &&& config.thread_count == 1
    &&& config.verbose == false
    &&& forall|query: Seq<u8>, answer: Result<Vec<u8>, Error>|
        #[trigger] config.handler.answers(query, answer) <==> declined(answer)
}

/// Whether `server` is what the builder assembles from `config`: a server
/// that has not started, with the addresses of `config` and one processor
/// for each worker, all of them around one shared table.
pub open spec fn built_from(config: BuilderView, server: ServerView) -> bool {
    &&& server.icann_resolver == config.icann_resolver
    &&& server.listen == config.listen
    &&& server.state == ServerState::Configured
    &&& exists|table: ThreadSafeStore| #[trigger] assembled(config, table, server.workers)
}

/// The workers of a server start at home in their ranges, and no two of
/// them ever allocate the same identifier.
pub proof fn lemma_workers_stay_apart(
    config: BuilderView,
    table: ThreadSafeStore,
    i: int,
    j: int,
    cursor_i: u16,
    cursor_j: u16,
)
    requires
        0 <= i < config.thread_count,
        0 <= j < config.thread_count,
        i != j,
        at_home(worker_of(config, table, i).id_range, cursor_i),
        at_home(worker_of(config, table, j).id_range, cursor_j),
    ensures
        at_home(worker_of(config, table, i).id_range, worker_of(config, table, i).cursor),
        successor(worker_of(config, table, i).id_range, cursor_i) != successor(
            worker_of(config, table, j).id_range,
            cursor_j,
        ),
{
    lemma_workers_never_collide(
        config.thread_count as u16,
        i as u16,
        j as u16,
        cursor_i,
        cursor_j,
    );
}

impl Builder {
    /// The default settings.
    pub fn new() -> (builder: Self)
        ensures
            default_settings(builder@),
    {
        let declining: Box<dyn CustomHandler> = Box::new(EmptyHandler::new());
        let ghost boxed = declining;
        let shared = Arc::new(declining);
        assert(*shared == boxed);
        let handler = HandlerHolder { func: shared };
        Self {
            icann_resolver: Endpoint::v4(192, 168, 1, 1, 53),
            listen: Endpoint::v4(0, 0, 0, 0, 53),
            thread_count: 1,
            handler,
            verbose: false,
        }
    }

    /// Set the DNS resolver for normal ICANN domains. Defaults to
    /// 192.168.1.1:53
    pub fn icann_resolver(self, icann_resolver: Endpoint) -> (builder: Self)
        ensures
            builder@ == (BuilderView { icann_resolver, ..self@ }),
    {
        let mut builder = self;
        builder.icann_resolver = icann_resolver;
        builder
    }

    /// Set socket the server should listen on. Defaults to 0.0.0.0:53
    pub fn listen(self, listen: Endpoint) -> (builder: Self)
        ensures
            builder@ == (BuilderView { listen, ..self@ }),
    {
        let mut builder = self;
        builder.listen = listen;
        builder
    }

    /// Set the number of threads used. Default: 1.
    pub fn threads(self, thread_count: u8) -> (builder: Self)
        ensures
            builder@ == (BuilderView { thread_count, ..self@ }),
    {
        let mut builder = self;
        builder.thread_count = thread_count;
        builder
    }

    /// Makes the server log verbosely.
    pub fn verbose(self, verbose: bool) -> (builder: Self)
        ensures
            builder@ == (BuilderView { verbose, ..self@ }),
    {
        let mut builder = self;
        builder.verbose = verbose;
        builder
    }

    /// Set handler to process the dns packet. `Ok` should include a dns
    /// packet with answers. `Err` will fall back to the upstream resolver.
    pub fn handler(self, handler: impl CustomHandler + 'static) -> (builder: Self)
        ensures
            builder@ == (BuilderView { handler: builder@.handler, ..self@ }),
            forall|query: Seq<u8>, answer: Result<Vec<u8>, Error>|
                #[trigger] builder@.handler.answers(query, answer) <==> handler.answers(
                    query,
                    answer,
                ),
    {
        let mut builder = self;
        builder.handler = HandlerHolder::new(handler);
        builder
    }

    /// The part of the identifier space that worker `i` of `thread_count`
    /// allocates from.
    pub fn calculate_id_range(thread_count: u16, i: u16) -> (range: Range<u16>)
        requires
            thread_count >= 1,
            i < thread_count,
        ensures
            range == id_range_of(thread_count, i),
    {
        proof {
            lemma_bucket_bounds(thread_count, i);
        }
        let width: u16 = u16::MAX / thread_count;
        Range { start: i * width, end: (i + 1) * width - 1 }
    }

    /// Assembles the server: a new table of pending queries, and for each
    /// worker a processor that shares the table and the handler with the
    /// others and has its own range of identifiers.
    pub fn build(self) -> (server: AnyDNS)
        ensures
            built_from(self@, server@),
    {
        let pending_queries = ThreadSafeStore::new();
        let mut threads: Vec<DnsProcessor> = Vec::new();
        let mut i: u8 = 0;
        while i < self.thread_count
            invariant
                i <= self.thread_count,
                threads@.len() == i,
                forall|j: int| 0 <= j < i ==> (#[trigger] threads@[j])@ == worker_of(
                    self@,
                    pending_queries,
                    j,
                ),
            decreases self.thread_count - i,
        {
            let id_range = Self::calculate_id_range(self.thread_count as u16, i as u16);
            let processor = DnsProcessor::new_threadsafe(
                self.icann_resolver,
                pending_queries.clone(),
                id_range,
                self.handler.clone(),
                self.verbose,
            );
            threads.push(processor);
            i += 1;
        }
        let server = AnyDNS {
            icann_resolver: self.icann_resolver,
            listen: self.listen,
            threads,
            state: ServerState::Configured,
        };
        assert forall|j: int| 0 <= j < self@.thread_count implies #[trigger] server@.workers[j]
            == worker_of(self@, pending_queries, j) by {
            assert(server@.workers[j] == threads@[j]@);
        }
        assert(assembled(self@, pending_queries, server@.workers));
        server
    }
}

/// Where a server is in its life. It only ever moves forward.
#[derive(Clone, Copy, Debug, PartialEq, Eq, Structural)]
pub enum ServerState {
    /// Assembled; no worker runs yet.
    Configured,
    /// The workers run.
    Running,
    /// The stop flag is set; the workers end as their reads run out of time.
    Stopping,
    /// Every worker has ended.
    Stopped,
}

/// What moves a server on.
#[derive(Clone, Copy, Debug, PartialEq, Eq, Structural)]
pub enum ServerEvent {
    /// The workers were started.
    Started,
    /// The caller asked the server to stop.
    StopRequested,
    /// The last worker has ended.
    WorkersExited,
}

impl ServerState {
    /// How far the state is from the start.
    pub open spec fn rank(self) -> int {
        match self {
            ServerState::Configured => 0,
            ServerState::Running => 1,
            ServerState::Stopping => 2,
            ServerState::Stopped => 3,
        }
    }

    /// The state after `event`: the next state where the event is the one
    /// that this state waits for, and the same state where it is not.
    pub open spec fn spec_after(self, event: ServerEvent) -> ServerState {
        match (self, event) {
            (ServerState::Configured, ServerEvent::Started) => ServerState::Running,
            (ServerState::Running, ServerEvent::StopRequested) => ServerState::Stopping,
            (ServerState::Stopping, ServerEvent::WorkersExited) => ServerState::Stopped,
            _ => self,
        }
    }

    /// The state after `event`.
    #[verifier::when_used_as_spec(spec_after)]
    pub fn after(self, event: ServerEvent) -> (next: ServerState)
        ensures
            next == self.spec_after(event),
    {
        match (self, event) {
            (ServerState::Configured, ServerEvent::Started) => ServerState::Running,
            (ServerState::Running, ServerEvent::StopRequested) => ServerState::Stopping,
            (ServerState::Stopping, ServerEvent::WorkersExited) => ServerState::Stopped,
            _ => self,
        }
    }
}

/// A server moves at most one state forward at a time and never back.
pub proof fn lemma_server_moves_forward(state: ServerState, event: ServerEvent)
    ensures
        state.after(event) == state || state.after(event).rank() == state.rank() + 1,
{
}

/// A stopped server stays stopped.
pub proof fn lemma_stopped_is_final(event: ServerEvent)
    ensures
        ServerState::Stopped.after(event) == ServerState::Stopped,
{
}

/// Nothing but a request of the caller takes a running server out of
/// running, and nothing but the start takes a server there.
pub proof fn lemma_running_ends_on_request(state: ServerState, event: ServerEvent)
    ensures
        ServerState::Running.after(event) != ServerState::Running <==> event
            == ServerEvent::StopRequested,
        state != ServerState::Running && state.after(event) == ServerState::Running <==> state
            == ServerState::Configured && event == ServerEvent::Started,
{
}

/// The server as the builder assembled it: its addresses, its workers'
/// processors, and its place in its life.
pub struct AnyDNS {
    icann_resolver: Endpoint,
    listen: Endpoint,
    threads: Vec<DnsProcessor>,
    state: ServerState,
}

/// What an [`AnyDNS`] holds.
pub struct ServerView {
    /// The address of the upstream resolver.
    pub icann_resolver: Endpoint,
    /// The address that the server listens on.
    pub listen: Endpoint,
    /// The processors that wait for their workers to start.
    pub workers: Seq<ProcessorView>,
    /// Where the server is in its life.
    pub state: ServerState,
}

impl View for AnyDNS {
    type V = ServerView;

    closed spec fn view(&self) -> ServerView {
        ServerView {
            icann_resolver: self.icann_resolver,
            listen: self.listen,
            workers: self.threads@.map_values(|processor: DnsProcessor| processor@),
            state: self.state,
        }
    }
}

impl AnyDNS {
    /// The address of the upstream resolver.
    pub fn icann_resolver(&self) -> (address: Endpoint)
        ensures
            address == self@.icann_resolver,
    {
        self.icann_resolver
    }

    /// The address that the server listens on.
    pub fn listen(&self) -> (address: Endpoint)
        ensures
            address == self@.listen,
    {
        self.listen
    }

    /// Where the server is in its life.
    pub fn state(&self) -> (state: ServerState)
        ensures
            state == self@.state,
    {
        self.state
    }

    /// Hands out the processors for the workers to run, and marks the server
    /// as running. Only a server that has not been started has any to hand
    /// out: a second call returns none and changes nothing.
    pub fn start(&mut self) -> (workers: Vec<DnsProcessor>)
        ensures
            old(self)@.state == ServerState::Configured ==> {
                &&& workers@.len() == old(self)@.workers.len()
                &&& forall|i: int|
                    0 <= i < workers@.len() ==> (#[trigger] workers@[i])@ == old(self)@.workers[i]
                &&& final(self)@ == (ServerView {
                    workers: Seq::empty(),
                    state: ServerState::Running,
                    ..old(self)@
                })
            },
            old(self)@.state != ServerState::Configured ==> {
                &&& workers@.len() == 0
                &&& final(self)@ == old(self)@
            },
    {
        let mut workers: Vec<DnsProcessor> = Vec::new();
        if self.state == ServerState::Configured {
            std::mem::swap(&mut self.threads, &mut workers);
            self.state = ServerState::Running;
            assert(self.threads@.map_values(|processor: DnsProcessor| processor@) =~= Seq::empty());
        }
        workers
    }

    /// Records `event`: the server moves on where the event is the one that
    /// its state waits for, and stays where it is otherwise.
    pub fn record(&mut self, event: ServerEvent)
        ensures
            final(self)@ == (ServerView {
                state: old(self)@.state.after(event),
                ..old(self)@
            }),
    {
        self.state = self.state.after(event);
    }
}

impl Default for AnyDNS {
    /// The server that the default settings give.
    fn default() -> (server: Self)
        ensures
            exists|config: BuilderView|
                default_settings(config) && #[trigger] built_from(config, server@),
    {
        let builder = Builder::new();
        let ghost config = builder@;
        let server = builder.build();
        assert(built_from(config, server@));
        server
    }
}

} // verus!
