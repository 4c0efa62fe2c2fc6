//! The notification dispatcher's bookkeeping: one send attempt per alert
//! message, strictly in order, each outcome recorded and none of them able
//! to stop the attempts that follow.
//!
//! The sends themselves are transport I/O and happen outside the library;
//! the dispatcher hands out the next message to attempt and takes back the
//! outcome, so the per-batch behaviour is all here.

use vstd::prelude::*;

verus! {

/// What a dispatch batch looks like to a specification: the messages to
/// send and the outcomes recorded so far.
pub struct DispatchView {
    pub messages: Seq<Seq<char>>,
    pub outcomes: Seq<bool>,
}

/// Recording one outcome: nothing but an append, whichever way the send
/// went.
pub open spec fn spec_step(v: DispatchView, delivered: bool) -> DispatchView {
    DispatchView { messages: v.messages, outcomes: v.outcomes.push(delivered) }
}

/// A whole batch run: the outcomes arrive one by one, first to last.
pub open spec fn spec_run(v: DispatchView, results: Seq<bool>) -> DispatchView
    decreases results.len(),
{
    if results.len() == 0 {
        v
    } else {
        spec_run(spec_step(v, results[0]), results.drop_first())
    }
}

/// One tick's dispatch batch.
pub struct Dispatcher {
    messages: Vec<String>,
    outcomes: Vec<bool>,
}

impl View for Dispatcher {
    type V = DispatchView;

    closed spec fn view(&self) -> DispatchView {
        DispatchView { messages: self.messages.deep_view(), outcomes: self.outcomes.deep_view() }
    }
}

impl Dispatcher {
    /// Attempts are still outstanding as long as fewer outcomes than
    /// messages are recorded.
    pub open spec fn spec_done(&self) -> bool {
        self@.outcomes.len() >= self@.messages.len()
    }

    /// A fresh batch: every message still to attempt, no outcome yet.
    pub fn new(messages: Vec<String>) -> (d: Self)
        ensures
            d@.messages == messages.deep_view(),
            d@.outcomes == Seq::<bool>::empty(),
    {
        let d = Dispatcher { messages, outcomes: Vec::new() };
        proof {
            assert(d@.outcomes =~= Seq::<bool>::empty());
        }
        d
    }

    /// The next message to attempt: always the first one without a recorded
    /// outcome, regardless of how earlier attempts went.
    pub fn next_message(&self) -> (r: Option<&String>)
        ensures
            match r {
                Some(m) => self@.outcomes.len() < self@.messages.len() && m@
                    == self@.messages[self@.outcomes.len() as int],
                None => self.spec_done(),
            },
    {
        let sent = self.outcomes.len();
        if sent < self.messages.len() {
            Some(&self.messages[sent])
        } else {
            None
        }
    }

    /// Records how one attempt went. A failed send is recorded exactly like
    /// a delivered one: it costs nothing but its own outcome, and the
    /// messages after it are still attempted.
    pub fn record_outcome(&mut self, delivered: bool)
        requires
            !old(self).spec_done(),
        ensures
            final(self)@ == spec_step(old(self)@, delivered),
            final(self)@.messages == old(self)@.messages,
            final(self)@.outcomes == old(self)@.outcomes.push(delivered),
    {
        self.outcomes.push(delivered);
        proof {
            assert(self@.outcomes =~= old(self)@.outcomes.push(delivered));
        }
    }

    /// Whether every message of the batch has been attempted.
    pub fn is_done(&self) -> (r: bool)
        ensures
            r == self.spec_done(),
    {
        self.outcomes.len() >= self.messages.len()
    }

    /// The recorded per-message outcomes, in message order.
    pub fn outcomes(&self) -> (r: &Vec<bool>)
        ensures
            r.deep_view() == self@.outcomes,
    {
        &self.outcomes
    }
}

/// Running a batch only ever appends the arriving outcomes: the message
/// list never changes, and every outcome is kept in order.
pub proof fn lemma_run_appends(v: DispatchView, results: Seq<bool>)
    ensures
        spec_run(v, results).messages == v.messages,
        spec_run(v, results).outcomes == v.outcomes + results,
    decreases results.len(),
{
    if results.len() == 0 {
        assert(v.outcomes + results =~= v.outcomes);
    } else {
        lemma_run_appends(spec_step(v, results[0]), results.drop_first());
        assert(v.outcomes.push(results[0]) + results.drop_first() =~= v.outcomes + results);
    }
}

/// A batch of `n` messages is `n` independent send attempts: whatever the
/// outcomes are, every attempt happens and is recorded in order, so a
/// failure at any position never suppresses the attempts after it.
pub proof fn lemma_dispatch_attempts_all(v: DispatchView, results: Seq<bool>)
    requires
        v.outcomes.len() == 0,
        results.len() == v.messages.len(),
    ensures
        spec_run(v, results).messages == v.messages,
        spec_run(v, results).outcomes == results,
        spec_run(v, results).outcomes.len() == v.messages.len(),
{
    lemma_run_appends(v, results);
    assert(v.outcomes + results =~= results);
}

} // verus!
