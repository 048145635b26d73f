//! The exchange with the provider, one step at a time.
//!
//! The provider's buffer belongs to its allocator. It is lent for one call:
//! it must be copied before it is released, released exactly once, and never
//! touched when the provider returned none at all. Those decisions are taken
//! here. The embedding program only carries out each [`Action`] at the
//! foreign boundary and reports back with the matching [`Event`].

use vstd::prelude::*;

verus! {

/// What to do next at the foreign boundary.
#[derive(Debug, PartialEq, Eq)]
pub enum Action {
    /// Invoke the provider's entry point.
    CallProvider,
    /// Copy the buffer's bytes, up to its terminator, into owned memory.
    CopyBuffer,
    /// Hand the buffer back to the provider's allocator.
    ReleaseBuffer,
    /// The exchange is over; this is the provider's response.
    Deliver(Option<Vec<u8>>),
}

/// What happened at the foreign boundary.
#[derive(Debug, PartialEq, Eq)]
pub enum Event {
    /// The provider returned, with a buffer or without one.
    Returned { is_null: bool },
    /// The buffer's bytes were copied; here they are.
    Copied(Vec<u8>),
    /// The buffer was released.
    Released,
}

/// How far an exchange has come.
#[derive(Debug, PartialEq, Eq)]
pub enum Exchange {
    /// The provider was asked; its return is awaited.
    Calling,
    /// The provider's buffer is held; its copy is awaited.
    Copying,
    /// The copy is made; the release of the buffer is awaited.
    Releasing(Vec<u8>),
    /// The response was delivered; nothing is held any more.
    Closed,
}

/// The step that an event causes in a stage: the next stage and the action
/// to take, or `None` where the stage does not await that event.
pub open spec fn transition(stage: Exchange, event: Event) -> Option<(Exchange, Action)> {
    match (stage, event) {
        (Exchange::Calling, Event::Returned { is_null }) => if is_null {
            Some((Exchange::Closed, Action::Deliver(None)))
        } else {
            Some((Exchange::Copying, Action::CopyBuffer))
        },
        (Exchange::Copying, Event::Copied(bytes)) => Some(
            (Exchange::Releasing(bytes), Action::ReleaseBuffer),
        ),
        (Exchange::Releasing(bytes), Event::Released) => Some(
            (Exchange::Closed, Action::Deliver(Some(bytes))),
        ),
        _ => None,
    }
}

impl Exchange {
    /// Opens an exchange. Its first action is the call of the provider.
    pub fn open() -> (start: (Exchange, Action))
        ensures
            start == (Exchange::Calling, Action::CallProvider),
    {
        (Exchange::Calling, Action::CallProvider)
    }

    /// Takes an event and answers with the next action.
    ///
    /// An event that the stage does not await is answered with `None` and
    /// changes nothing.
    pub fn step(&mut self, event: Event) -> (action: Option<Action>)
        ensures
            match transition(*old(self), event) {
                Some((stage, next)) => *final(self) == stage && action == Some(next),
                None => *final(self) == *old(self) && action is None,
            },
    {
        let mut stage = Exchange::Closed;
        core::mem::swap(&mut stage, self);
        match (stage, event) {
            (Exchange::Calling, Event::Returned { is_null }) => {
                if is_null {
                    Some(Action::Deliver(None))
                } else {
                    *self = Exchange::Copying;
                    Some(Action::CopyBuffer)
                }
            },
            (Exchange::Copying, Event::Copied(bytes)) => {
                *self = Exchange::Releasing(bytes);
                Some(Action::ReleaseBuffer)
            },
            (Exchange::Releasing(bytes), Event::Released) => Some(Action::Deliver(Some(bytes))),
            (stage, _) => {
                *self = stage;
                None
            },
        }
    }
}

/// Where an exchange stands after the given events, and the actions that it
/// has issued on the way, the opening call first. An event that was not
/// awaited leaves no trace.
pub open spec fn run(events: Seq<Event>) -> (Exchange, Seq<Action>)
    decreases events.len(),
{
    if events.len() == 0 {
        (Exchange::Calling, seq![Action::CallProvider])
    } else {
        let (stage, actions) = run(events.drop_last());
        match transition(stage, events.last()) {
            Some((next, action)) => (next, actions.push(action)),
            None => (stage, actions),
        }
    }
}

/// The course of an exchange whose provider returned no buffer.
pub open spec fn null_course() -> Seq<Action> {
    seq![Action::CallProvider, Action::Deliver(None)]
}

/// The course of an exchange whose provider returned a buffer with the given
/// bytes: one copy, then one release, then the delivery.
pub open spec fn buffer_course(bytes: Vec<u8>) -> Seq<Action> {
    seq![
        Action::CallProvider,
        Action::CopyBuffer,
        Action::ReleaseBuffer,
        Action::Deliver(Some(bytes)),
    ]
}

/// The actions are those that lead to the stage along one of the two courses.
pub open spec fn on_course(stage: Exchange, actions: Seq<Action>) -> bool {
    match stage {
        Exchange::Calling => actions == seq![Action::CallProvider],
        Exchange::Copying => actions == seq![Action::CallProvider, Action::CopyBuffer],
        Exchange::Releasing(bytes) => actions == buffer_course(bytes).drop_last(),
        Exchange::Closed => actions == null_course() || exists|bytes: Vec<u8>|
            actions == #[trigger] buffer_course(bytes),
    }
}

/// Whatever events arrive, in whatever order, an exchange never leaves the
/// two courses: a release is issued only after the copy and at most once, no
/// copy follows a release, and nothing follows the delivery.
pub proof fn lemma_exchange_stays_on_course(events: Seq<Event>)
    ensures
        on_course(run(events).0, run(events).1),
    decreases events.len(),
{
    if events.len() > 0 {
        lemma_exchange_stays_on_course(events.drop_last());
        let (stage, actions) = run(events.drop_last());
        match transition(stage, events.last()) {
            Some((next, action)) => {
                match next {
                    Exchange::Calling => {},
                    Exchange::Copying => {
                        assert(actions.push(action) =~= seq![
                            Action::CallProvider,
                            Action::CopyBuffer,
                        ]);
                    },
                    Exchange::Releasing(bytes) => {
                        assert(actions.push(action) =~= buffer_course(bytes).drop_last());
                    },
                    Exchange::Closed => {
                        if stage is Calling {
                            assert(actions.push(action) =~= null_course());
                        } else {
                            let bytes = stage->Releasing_0;
                            assert(actions.push(action) =~= buffer_course(bytes));
                        }
                    },
                }
            },
            None => {},
        }
    }
}

/// An exchange that delivers "no buffer" has neither copied nor released
/// anything: after the call it did nothing but deliver.
pub proof fn lemma_null_buffer_is_never_touched(events: Seq<Event>)
    requires
        run(events).1.last() == Action::Deliver(None),
    ensures
        run(events).1 == null_course(),
        !run(events).1.contains(Action::CopyBuffer),
        !run(events).1.contains(Action::ReleaseBuffer),
{
    lemma_exchange_stays_on_course(events);
    let (stage, actions) = run(events);
    if stage is Closed && actions != null_course() {
        let bytes = choose|bytes: Vec<u8>| actions == #[trigger] buffer_course(bytes);
        assert(actions.last() == buffer_course(bytes)[3]);
    }
}

/// An exchange that delivers bytes has released the provider's buffer
/// exactly once, after copying it and before delivering, whatever the bytes
/// are.
pub proof fn lemma_buffer_is_released_once(events: Seq<Event>, bytes: Vec<u8>)
    requires
        run(events).1.last() == Action::Deliver(Some(bytes)),
    ensures
        run(events).1 == buffer_course(bytes),
{
    lemma_exchange_stays_on_course(events);
    let (stage, actions) = run(events);
    if stage is Closed && actions != null_course() {
        let held = choose|held: Vec<u8>| actions == #[trigger] buffer_course(held);
        assert(actions.last() == buffer_course(held)[3]);
    }
}

} // verus!
