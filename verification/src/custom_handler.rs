//! The hook through which an embedding program answers queries itself.

use std::sync::Arc;
use vstd::prelude::*;
use crate::error::Error;
use crate::sharing::share;

verus! {

/// Trait to implement to make the forwarder use a custom resolver.
///
/// The handler is shared: every worker calls the same instance, possibly at
/// the same time, so it has to be `Send + Sync`. A handler with state of its
/// own synchronises it itself.
///
/// A panic of the handler unwinds through the worker that called it. A
/// program that wants such a query forwarded instead catches the panic in
/// its handler and declines.
pub trait CustomHandler: Send + Sync {
    /// Offers a client's datagram, byte for byte as it arrived, to the
    /// handler. `Ok` holds a complete DNS reply, which goes to the client under
    /// the client's transaction identifier. `Err` declines: the query is
    /// forwarded to the upstream resolver. A handler that cannot parse the
    /// datagram declines.
    fn lookup(&self, query: &Vec<u8>) -> (answer: Result<Vec<u8>, Error>)
        ensures
            self.answers(query@, answer),
    ;

    /// Whether `answer` is something that this handler may say to `query`.
    /// A handler that promises nothing may say anything.
    open spec fn answers(&self, query: Seq<u8>, answer: Result<Vec<u8>, Error>) -> bool {
        true
    }
}

/// A handler as the holder keeps it: behind a type of this library, so that
/// what the holder says of its handler is what the handler says of itself.
struct Held<H> {
    handler: H,
}

impl<H: CustomHandler> CustomHandler for Held<H> {
    closed spec fn answers(&self, query: Seq<u8>, answer: Result<Vec<u8>, Error>) -> bool {
        self.handler.answers(query, answer)
    }

    fn lookup(&self, query: &Vec<u8>) -> (answer: Result<Vec<u8>, Error>) {
        self.handler.lookup(query)
    }
}

/// Clonable handler holder. A clone is another reference to the same
/// handler, not a copy of it.
pub struct HandlerHolder {
    pub func: Arc<Box<dyn CustomHandler>>,
}

impl Clone for HandlerHolder {
    fn clone(&self) -> (other: Self)
        ensures
            other == *self,
    {
        Self { func: share(&self.func) }
    }
}

impl HandlerHolder {
    /// Bootstrap a holder from a struct that implements [`CustomHandler`].
    /// The holder answers as `f` does: a call of the holder is a call of `f`.
    pub fn new(f: impl CustomHandler + 'static) -> (holder: Self)
        ensures
            forall|query: Seq<u8>, answer: Result<Vec<u8>, Error>|
                #[trigger] holder.answers(query, answer) <==> f.answers(query, answer),
    {
        let func: Box<dyn CustomHandler> = Box::new(Held { handler: f });
        let ghost held = func;
        let shared = Arc::new(func);
        assert(*shared == held);
        HandlerHolder { func: shared }
    }

    /// Whether `answer` is something that the handler may say to `query`.
    pub open spec fn answers(&self, query: Seq<u8>, answer: Result<Vec<u8>, Error>) -> bool {
        self.func.answers(query, answer)
    }

    /// Offers `query` to the handler and returns what the handler said.
    pub fn call(&self, query: &Vec<u8>) -> (answer: Result<Vec<u8>, Error>)
        ensures
            self.answers(query@, answer),
    {
        self.func.lookup(query)
    }
}

/// The handler that declines every query, so that everything is forwarded.
#[derive(Clone, Copy)]
pub struct EmptyHandler {}

impl EmptyHandler {
    /// The handler that declines every query.
    pub fn new() -> (handler: Self)
        ensures
            handler == (EmptyHandler {  }),
    {
        EmptyHandler {  }
    }
}

/// Whether `answer` is how the [`EmptyHandler`] declines.
pub open spec fn declined(answer: Result<Vec<u8>, Error>) -> bool {
    answer matches Err(Error::Static(text)) && text@ == "Not implemented"@
}

impl CustomHandler for EmptyHandler {
    open spec fn answers(&self, query: Seq<u8>, answer: Result<Vec<u8>, Error>) -> bool {
        declined(answer)
    }

    fn lookup(&self, query: &Vec<u8>) -> (answer: Result<Vec<u8>, Error>) {
        Err(Error::Static("Not implemented"))
    }
}

} // verus!
