//! The poll scheduler: the four-phase tick cycle `Fetching -> Evaluating ->
//! Dispatching -> Waiting`, forever. The scheduler owns the cadence and the
//! per-tick failure policy; the fetching, sending and sleeping are done
//! outside and reported back as events, each answered with the next action
//! to perform.

use vstd::prelude::*;

use crate::config::Config;
use crate::errors::CoreError;
use crate::notify::{spec_notifications, spec_above_message, Notification};
use crate::price::{PriceDetails, SampleView};

verus! {

/// Where in its cycle a tick stands.
#[derive(Clone, Copy, Debug, PartialEq, Eq, Structural)]
pub enum Phase {
    /// Waiting for the price source to answer.
    Fetching,
    /// Turning samples into alert messages.
    Evaluating,
    /// Waiting for the transport to work through the batch.
    Dispatching,
    /// Sleeping out the configured interval.
    Waiting,
}

/// What the surrounding loop must do next.
#[derive(Debug)]
pub enum Action {
    /// Ask the price source for quotes on the tracked assets.
    Fetch,
    /// Hand these messages to the dispatcher, in order.
    Send(Vec<String>),
    /// Sleep this many seconds, then report back.
    Wait(u64),
}

/// Every alert message of one tick: each sample's notifications in sample
/// order, so the output follows the order in which the assets were fetched.
pub open spec fn spec_tick_messages(samples: Seq<SampleView>, config: Config) -> Seq<Seq<char>>
    decreases samples.len(),
{
    if samples.len() == 0 {
        Seq::empty()
    } else {
        spec_tick_messages(samples.drop_last(), config) + spec_notifications(
            samples.last().asset,
            samples.last().price,
            config.notify_below.spec_get(samples.last().asset),
            config.notify_above.spec_get(samples.last().asset),
        )
    }
}

/// The poll scheduler. It never terminates on its own: every event has a
/// next action, and a failed fetch or an inconsistent configuration costs
/// at most the current tick.
pub struct PollScheduler {
    phase: Phase,
    interval_secs: u64,
}

impl PollScheduler {
    pub closed spec fn spec_phase(&self) -> Phase {
        self.phase
    }

    pub closed spec fn spec_interval(&self) -> u64 {
        self.interval_secs
    }

    /// A scheduler at the start of its first tick, with the wait interval
    /// it will keep for the life of the process.
    pub fn new(interval_secs: u64) -> (s: Self)
        ensures
            s.spec_phase() == Phase::Fetching,
            s.spec_interval() == interval_secs,
    {
        PollScheduler { phase: Phase::Fetching, interval_secs }
    }

    pub fn phase(&self) -> (p: Phase)
        ensures
            p == self.spec_phase(),
    {
        self.phase
    }

    pub fn interval_secs(&self) -> (d: u64)
        ensures
            d == self.spec_interval(),
    {
        self.interval_secs
    }

    /// The price source failed for the whole batch: the tick is abandoned
    /// as a unit — nothing is evaluated, nothing is sent — and the
    /// scheduler moves straight to the wait, never out of the loop.
    pub fn on_fetch_failed(&mut self) -> (a: Action)
        requires
            old(self).spec_phase() == Phase::Fetching,
        ensures
            final(self).spec_phase() == Phase::Waiting,
            final(self).spec_interval() == old(self).spec_interval(),
            a matches Action::Wait(d) && d == old(self).spec_interval(),
    {
        self.phase = Phase::Waiting;
        Action::Wait(self.interval_secs)
    }

    /// The price source answered: evaluate every sample in order and hand
    /// the batch of alert messages on, or go straight to the wait when no
    /// threshold was crossed. A sample for an untracked asset is a
    /// configuration-consistency fault: the tick is abandoned and the error
    /// surfaced, but the loop goes on.
    pub fn on_prices(&mut self, samples: &Vec<PriceDetails>, config: &Config) -> (r: Result<
        Action,
        CoreError,
    >)
        requires
            old(self).spec_phase() == Phase::Fetching,
        ensures
            final(self).spec_interval() == old(self).spec_interval(),
            match r {
                Ok(a) => {
                    &&& forall|j: int|
                        0 <= j < samples.deep_view().len() ==> config.is_tracked(
                            (#[trigger] samples.deep_view()[j]).asset,
                        )
                    &&& match a {
                        Action::Send(msgs) => msgs.deep_view() == spec_tick_messages(
                            samples.deep_view(),
                            *config,
                        ) && msgs.deep_view().len() > 0 && final(self).spec_phase()
                            == Phase::Dispatching,
                        Action::Wait(d) => d == old(self).spec_interval() && spec_tick_messages(
                            samples.deep_view(),
                            *config,
                        ).len() == 0 && final(self).spec_phase() == Phase::Waiting,
                        Action::Fetch => false,
                    }
                },
                Err(e) => {
                    &&& e == CoreError::ConfigInconsistency
                    &&& exists|j: int|
                        0 <= j < samples.deep_view().len() && !config.is_tracked(
                            (#[trigger] samples.deep_view()[j]).asset,
                        )
                    &&& final(self).spec_phase() == Phase::Waiting
                },
            },
    {
        self.phase = Phase::Evaluating;
        let mut messages: Vec<String> = Vec::new();
        let n = samples.len();
        let mut i: usize = 0;
        while i < n
            invariant
                n == samples.deep_view().len(),
                i <= n,
                self.spec_interval() == old(self).spec_interval(),
                messages.deep_view() == spec_tick_messages(
                    samples.deep_view().take(i as int),
                    *config,
                ),
                forall|j: int|
                    0 <= j < i ==> config.is_tracked((#[trigger] samples.deep_view()[j]).asset),
            decreases n - i,
        {
            let ghost prefix = samples.deep_view().take(i as int);
            let ghost messages_before = messages.deep_view();
            let mut batch = match samples[i].get_notifications(config) {
                Ok(batch) => batch,
                Err(e) => {
                    self.phase = Phase::Waiting;
                    proof {
                        assert(!config.is_tracked(samples.deep_view()[i as int].asset));
                    }
                    return Err(e);
                },
            };
            let ghost batch_view = batch.deep_view();
            messages.append(&mut batch);
            proof {
                assert(messages.deep_view() =~= messages_before + batch_view);
                let next = samples.deep_view().take(i as int + 1);
                assert(next.drop_last() =~= prefix);
                assert(next.last() == samples.deep_view()[i as int]);
            }
            i = i + 1;
        }
        proof {
            assert(samples.deep_view().take(n as int) =~= samples.deep_view());
        }
        if messages.len() == 0 {
            self.phase = Phase::Waiting;
            Ok(Action::Wait(self.interval_secs))
        } else {
            self.phase = Phase::Dispatching;
            Ok(Action::Send(messages))
        }
    }

    /// The dispatcher has worked through the batch, delivered or not: the
    /// tick is over and the wait begins.
    pub fn on_dispatched(&mut self) -> (a: Action)
        requires
            old(self).spec_phase() == Phase::Dispatching,
        ensures
            final(self).spec_phase() == Phase::Waiting,
            final(self).spec_interval() == old(self).spec_interval(),
            a matches Action::Wait(d) && d == old(self).spec_interval(),
    {
        self.phase = Phase::Waiting;
        Action::Wait(self.interval_secs)
    }

    /// The interval has elapsed: a new tick begins with a fresh fetch.
    pub fn on_wait_elapsed(&mut self) -> (a: Action)
        requires
            old(self).spec_phase() == Phase::Waiting,
        ensures
            final(self).spec_phase() == Phase::Fetching,
            final(self).spec_interval() == old(self).spec_interval(),
            a matches Action::Fetch,
    {
        self.phase = Phase::Fetching;
        Action::Fetch
    }
}

/// Alerts are not de-duplicated: a tick's messages are a function of the
/// samples and the configuration alone — the scheduler keeps no memory of
/// earlier alerts — so as long as a price stays over its upper threshold,
/// every tick that samples it carries the `above` message again.
pub proof fn lemma_alert_repeats_every_tick(
    samples: Seq<SampleView>,
    config: Config,
    i: int,
    upper: u64,
)
    requires
        0 <= i < samples.len(),
        config.notify_above.spec_get(samples[i].asset) == Some(upper),
        samples[i].price > upper,
    ensures
        spec_tick_messages(samples, config).contains(spec_above_message(samples[i].asset, upper)),
    decreases samples.len(),
{
    let tick = spec_tick_messages(samples, config);
    let msg = spec_above_message(samples[i].asset, upper);
    let last_part = spec_notifications(
        samples.last().asset,
        samples.last().price,
        config.notify_below.spec_get(samples.last().asset),
        config.notify_above.spec_get(samples.last().asset),
    );
    if i == samples.len() - 1 {
        assert(last_part.last() == msg);
        assert(tick[tick.len() - 1] == msg);
    } else {
        lemma_alert_repeats_every_tick(samples.drop_last(), config, i, upper);
        let rest = spec_tick_messages(samples.drop_last(), config);
        let j = choose|j: int| 0 <= j < rest.len() && rest[j] == msg;
        assert(tick[j] == msg);
    }
}

} // verus!
