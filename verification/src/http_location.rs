//! The state a `location` block accumulates: the handlers it contributes to
//! the server that encloses it.

use crate::processor::Handler;
use vstd::prelude::*;

verus! {

/// The handlers of a location as contracts see them: each status code with
/// the bytes its handler answers.
pub open spec fn handlers_view(handlers: Seq<(u16, Handler)>) -> Seq<(u16, Seq<u8>)> {
    Seq::new(handlers.len(), |i: int| (handlers[i].0, handlers[i].1@))
}

/// A use of a location context after its handlers were taken.
#[derive(Clone, Copy, Debug, PartialEq, Eq, Structural)]
pub enum LocationError {
    Consumed,
}

/// The context of one `location` block. It is open while directives add
/// handlers to it and consumed once a server build has taken them.
pub struct HttpLocationContext {
    handlers: Option<Vec<(u16, Handler)>>,
}

impl View for HttpLocationContext {
    /// The handlers in the order they were added, or `None` once consumed.
    type V = Option<Seq<(u16, Seq<u8>)>>;

    closed spec fn view(&self) -> Option<Seq<(u16, Seq<u8>)>> {
        match self.handlers {
            Some(handlers) => Some(handlers_view(handlers@)),
            None => None,
        }
    }
}

impl HttpLocationContext {
    /// An open context without handlers.
    pub fn new() -> (ctx: HttpLocationContext)
        ensures
            ctx@ == Some(Seq::<(u16, Seq<u8>)>::empty()),
    {
        let ctx = HttpLocationContext { handlers: Some(Vec::new()) };
        proof {
            assert(ctx@->0 =~= Seq::<(u16, Seq<u8>)>::empty());
        }
        ctx
    }

    /// Whether the handlers were already taken.
    pub fn is_consumed(&self) -> (consumed: bool)
        ensures
            consumed == (self@ is None),
    {
        self.handlers.is_none()
    }

    /// Adds a handler for `status_code`. A consumed context refuses it and
    /// stays as it is.
    pub fn add_handler(&mut self, status_code: u16, handler: Handler) -> (done: Result<
        (),
        LocationError,
    >)
        ensures
            match old(self)@ {
                Some(before) => done is Ok && final(self)@ == Some(
                    before.push((status_code, handler@)),
                ),
                None => done == Err::<(), LocationError>(LocationError::Consumed) && final(self)@
                    is None,
            },
    {
        match self.handlers.take() {
            Some(mut handlers) => {
                let ghost before = handlers@;
                handlers.push((status_code, handler));
                proof {
                    assert(handlers_view(handlers@) =~= handlers_view(before).push(
                        (status_code, handler@),
                    ));
                }
                self.handlers = Some(handlers);
                Ok(())
            },
            None => Err(LocationError::Consumed),
        }
    }

    /// Takes the handlers out and leaves the context consumed. A second call
    /// gets `None`.
    pub fn take_handlers(&mut self) -> (taken: Option<Vec<(u16, Handler)>>)
        ensures
            final(self)@ is None,
            match taken {
                Some(handlers) => old(self)@ == Some(handlers_view(handlers@)),
                None => old(self)@ is None,
            },
    {
        self.handlers.take()
    }
}

} // verus!
