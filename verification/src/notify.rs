//! The threshold evaluator and the alert texts: one price sample against one
//! configuration yields zero, one or two alert events, each rendered to the
//! message the dispatcher will send.

use vstd::prelude::*;

use crate::config::Config;
use crate::digits::{spec_decimal, u64_to_decimal};
use crate::errors::CoreError;
use crate::price::PriceDetails;

verus! {

/// Which side of a threshold the price crossed.
#[derive(Clone, Copy, Debug, PartialEq, Eq, Structural)]
pub enum Direction {
    Above,
    Below,
}

/// What one alert event looks like to a specification.
pub struct AlertView {
    pub asset: Seq<char>,
    pub direction: Direction,
    pub threshold: u64,
    pub observed: u64,
}

/// One threshold crossing: consumed by the dispatcher within the same tick
/// and never persisted.
#[derive(Debug)]
pub struct AlertEvent {
    pub asset_id: String,
    pub direction: Direction,
    pub threshold_value: u64,
    pub observed_price: u64,
}

impl View for AlertEvent {
    type V = AlertView;

    open spec fn view(&self) -> AlertView {
        AlertView {
            asset: self.asset_id@,
            direction: self.direction,
            threshold: self.threshold_value,
            observed: self.observed_price,
        }
    }
}

impl DeepView for AlertEvent {
    type V = AlertView;

    open spec fn deep_view(&self) -> AlertView {
        self.view()
    }
}

/// The alert events that one sample produces against one pair of optional
/// thresholds: a `below` event when the price is strictly under the lower
/// bound, then an `above` event when it is strictly over the upper bound.
/// Both can appear only when the bounds are inverted; neither boundary value
/// itself triggers.
pub open spec fn spec_evaluate(
    asset: Seq<char>,
    price: u64,
    below: Option<u64>,
    above: Option<u64>,
) -> Seq<AlertView> {
    let b: Seq<AlertView> = match below {
        Some(l) => if price < l {
            seq![AlertView { asset, direction: Direction::Below, threshold: l, observed: price }]
        } else {
            seq![]
        },
        None => seq![],
    };
    let a: Seq<AlertView> = match above {
        Some(u) => if price > u {
            seq![AlertView { asset, direction: Direction::Above, threshold: u, observed: price }]
        } else {
            seq![]
        },
        None => seq![],
    };
    b + a
}

/// The message for a price that dropped under the lower threshold.
pub open spec fn spec_below_message(asset: Seq<char>, target: u64) -> Seq<char> {
    asset + " target price dropped below: "@ + spec_decimal(target as nat)
}

/// The message for a price that went over the upper threshold.
pub open spec fn spec_above_message(asset: Seq<char>, target: u64) -> Seq<char> {
    asset + " target price went above: "@ + spec_decimal(target as nat)
}

/// The message text for one alert event.
pub open spec fn spec_render_alert(e: AlertView) -> Seq<char> {
    match e.direction {
        Direction::Below => spec_below_message(e.asset, e.threshold),
        Direction::Above => spec_above_message(e.asset, e.threshold),
    }
}

/// Renders one alert event to the message the dispatcher sends.
pub fn render_alert(e: &AlertEvent) -> (r: String)
    ensures
        r@ == spec_render_alert(e@),
{
    let mut r = e.asset_id.clone();
    match e.direction {
        Direction::Below => {
            r.append(" target price dropped below: ");
        },
        Direction::Above => {
            r.append(" target price went above: ");
        },
    }
    let d = u64_to_decimal(e.threshold_value);
    r.append(d.as_str());
    r
}

/// The threshold evaluator: compares one sample against the thresholds
/// registered for its asset. An asset outside the tracked set is a
/// configuration-consistency fault and is reported, not evaluated; an asset
/// with no thresholds yields no events and no error.
pub fn evaluate(sample: &PriceDetails, config: &Config) -> (r: Result<Vec<AlertEvent>, CoreError>)
    ensures
        match r {
            Ok(events) => config.is_tracked(sample@.asset) && events.deep_view() == spec_evaluate(
                sample@.asset,
                sample@.price,
                config.notify_below.spec_get(sample@.asset),
                config.notify_above.spec_get(sample@.asset),
            ),
            Err(e) => e == CoreError::ConfigInconsistency && !config.is_tracked(sample@.asset),
        },
{
    if !config.contains_currency(&sample.currency) {
        return Err(CoreError::ConfigInconsistency);
    }
    let mut events: Vec<AlertEvent> = Vec::new();
    match config.notify_below.get(&sample.currency) {
        Some(target) => {
            if sample.price < target {
                events.push(
                    AlertEvent {
                        asset_id: sample.currency.clone(),
                        direction: Direction::Below,
                        threshold_value: target,
                        observed_price: sample.price,
                    },
                );
            }
        },
        None => {},
    }
    match config.notify_above.get(&sample.currency) {
        Some(target) => {
            if sample.price > target {
                events.push(
                    AlertEvent {
                        asset_id: sample.currency.clone(),
                        direction: Direction::Above,
                        threshold_value: target,
                        observed_price: sample.price,
                    },
                );
            }
        },
        None => {},
    }
    proof {
        assert(events.deep_view() =~= spec_evaluate(
            sample@.asset,
            sample@.price,
            config.notify_below.spec_get(sample@.asset),
            config.notify_above.spec_get(sample@.asset),
        ));
    }
    Ok(events)
}

/// Threshold bookkeeping and evaluation for anything that carries an asset
/// id and an observed price.
pub trait Notification {
    /// The asset id the thresholds belong to.
    spec fn spec_asset(&self) -> Seq<char>;

    /// The price observed for the asset.
    spec fn spec_observed(&self) -> u64;

    /// Registers an upper (`max`) and a lower (`min`) threshold for the
    /// asset; an asset outside the tracked set is refused as a
    /// configuration-consistency fault and the configuration is untouched.
    fn add_notifications(&self, config: &mut Config, max: Option<u32>, min: Option<u32>) -> (r:
        Result<(), CoreError>)
        ensures
            match r {
                Ok(_) => {
                    &&& old(config).is_tracked(self.spec_asset())
                    &&& match max {
                        Some(m) => final(config).notify_above.spec_get(self.spec_asset()) == Some(
                            m as u64,
                        ) && (forall|k: Seq<char>|
                            k != self.spec_asset()
                                ==> #[trigger] final(config).notify_above.spec_get(k) == old(
                                config,
                            ).notify_above.spec_get(k)),
                        None => final(config).notify_above == old(config).notify_above,
                    }
                    &&& match min {
                        Some(m) => final(config).notify_below.spec_get(self.spec_asset()) == Some(
                            m as u64,
                        ) && (forall|k: Seq<char>|
                            k != self.spec_asset()
                                ==> #[trigger] final(config).notify_below.spec_get(k) == old(
                                config,
                            ).notify_below.spec_get(k)),
                        None => final(config).notify_below == old(config).notify_below,
                    }
                    &&& final(config).currencies == old(config).currencies
                    &&& final(config).priced_in == old(config).priced_in
                    &&& final(config).my_number == old(config).my_number
                    &&& final(config).to_number == old(config).to_number
                    &&& final(config).account_id == old(config).account_id
                    &&& final(config).auth_token == old(config).auth_token
                    &&& old(config).wf() ==> final(config).wf()
                },
                Err(e) => {
                    &&& e == CoreError::ConfigInconsistency
                    &&& !old(config).is_tracked(self.spec_asset())
                    &&& *final(config) == *old(config)
                },
            },
    ;

    /// The rendered alert messages for the asset at its observed price, in
    /// evaluation order; an untracked asset is refused as a
    /// configuration-consistency fault.
    fn get_notifications(&self, config: &Config) -> (r: Result<Vec<String>, CoreError>)
        ensures
            match r {
                Ok(msgs) => config.is_tracked(self.spec_asset()) && msgs.deep_view()
                    == spec_notifications(
                    self.spec_asset(),
                    self.spec_observed(),
                    config.notify_below.spec_get(self.spec_asset()),
                    config.notify_above.spec_get(self.spec_asset()),
                ),
                Err(e) => e == CoreError::ConfigInconsistency && !config.is_tracked(
                    self.spec_asset(),
                ),
            },
    ;
}

impl Notification for PriceDetails {
    open spec fn spec_asset(&self) -> Seq<char> {
        self.currency@
    }

    open spec fn spec_observed(&self) -> u64 {
        self.price
    }

    fn add_notifications(&self, config: &mut Config, max: Option<u32>, min: Option<u32>) -> (r:
        Result<(), CoreError>) {
        if !config.contains_currency(&self.currency) {
            return Err(CoreError::ConfigInconsistency);
        }
        match max {
            Some(m) => {
                config.notify_above.insert(self.currency.clone(), m as u64);
            },
            None => {},
        }
        match min {
            Some(m) => {
                config.notify_below.insert(self.currency.clone(), m as u64);
            },
            None => {},
        }
        Ok(())
    }

    fn get_notifications(&self, config: &Config) -> (r: Result<Vec<String>, CoreError>) {
        let events = match evaluate(self, config) {
            Ok(events) => events,
            Err(e) => {
                return Err(e);
            },
        };
        let ghost evs = spec_evaluate(
            self.spec_asset(),
            self.spec_observed(),
            config.notify_below.spec_get(self.spec_asset()),
            config.notify_above.spec_get(self.spec_asset()),
        );
        let mut msgs: Vec<String> = Vec::new();
        let n = events.len();
        let mut i: usize = 0;
        while i < n
            invariant
                n == events.deep_view().len(),
                i <= n,
                events.deep_view() == evs,
                msgs.deep_view().len() == i,
                forall|j: int|
                    0 <= j < i ==> msgs.deep_view()[j] == spec_render_alert(events.deep_view()[j]),
            decreases n - i,
        {
            let ghost msgs_before = msgs.deep_view();
            let m = render_alert(&events[i]);
            msgs.push(m);
            proof {
                assert(msgs.deep_view() =~= msgs_before.push(
                    spec_render_alert(events.deep_view()[i as int]),
                ));
            }
            i = i + 1;
        }
        proof {
            lemma_notifications_are_rendered_alerts(
                self.spec_asset(),
                self.spec_observed(),
                config.notify_below.spec_get(self.spec_asset()),
                config.notify_above.spec_get(self.spec_asset()),
            );
            assert(msgs.deep_view() =~= evs.map_values(|e: AlertView| spec_render_alert(e)));
        }
        Ok(msgs)
    }
}

/// The message texts that one sample produces, in the order the evaluator
/// emits the events: the `below` message first, then the `above` one.
pub open spec fn spec_notifications(
    asset: Seq<char>,
    price: u64,
    below: Option<u64>,
    above: Option<u64>,
) -> Seq<Seq<char>> {
    let b: Seq<Seq<char>> = match below {
        Some(l) => if price < l {
            seq![spec_below_message(asset, l)]
        } else {
            seq![]
        },
        None => seq![],
    };
    let a: Seq<Seq<char>> = match above {
        Some(u) => if price > u {
            seq![spec_above_message(asset, u)]
        } else {
            seq![]
        },
        None => seq![],
    };
    b + a
}

/// The notification texts are exactly the rendered alert events, one for
/// one and in the same order.
pub proof fn lemma_notifications_are_rendered_alerts(
    asset: Seq<char>,
    price: u64,
    below: Option<u64>,
    above: Option<u64>,
)
    ensures
        spec_notifications(asset, price, below, above) == spec_evaluate(
            asset,
            price,
            below,
            above,
        ).map_values(|e: AlertView| spec_render_alert(e)),
{
    assert(spec_notifications(asset, price, below, above) =~= spec_evaluate(
        asset,
        price,
        below,
        above,
    ).map_values(|e: AlertView| spec_render_alert(e)));
}

/// How often events of one direction occur in an event sequence.
pub open spec fn count_direction(evs: Seq<AlertView>, d: Direction) -> nat
    decreases evs.len(),
{
    if evs.len() == 0 {
        0
    } else {
        count_direction(evs.drop_last(), d) + if evs.last().direction == d {
            1nat
        } else {
            0nat
        }
    }
}

/// With an upper threshold set, the evaluator emits exactly one `above`
/// event exactly when the price is strictly over it; at the boundary value
/// itself it emits none.
pub proof fn lemma_upper_boundary_exclusive(
    asset: Seq<char>,
    price: u64,
    below: Option<u64>,
    upper: u64,
)
    ensures
        ({
            let evs = spec_evaluate(asset, price, below, Some(upper));
            &&& price > upper ==> count_direction(evs, Direction::Above) == 1 && evs.last()
                == (AlertView {
                asset,
                direction: Direction::Above,
                threshold: upper,
                observed: price,
            })
            &&& price <= upper ==> count_direction(evs, Direction::Above) == 0
        }),
{
    let evs = spec_evaluate(asset, price, below, Some(upper));
    let b: Seq<AlertView> = match below {
        Some(l) => if price < l {
            seq![AlertView { asset, direction: Direction::Below, threshold: l, observed: price }]
        } else {
            seq![]
        },
        None => seq![],
    };
    assert(count_direction(Seq::<AlertView>::empty(), Direction::Above) == 0);
    if b.len() == 1 {
        assert(b.drop_last() =~= Seq::<AlertView>::empty());
        assert(count_direction(b, Direction::Above) == 0);
    } else {
        assert(b =~= Seq::<AlertView>::empty());
    }
    if price > upper {
        let ab = AlertView { asset, direction: Direction::Above, threshold: upper, observed: price };
        assert(evs =~= b + seq![ab]);
        assert(evs.last() == ab);
        assert(evs.drop_last() =~= b);
        assert(count_direction(evs, Direction::Above) == 1);
    } else {
        assert(evs =~= b);
        assert(count_direction(evs, Direction::Above) == 0);
    }
}

/// With a lower threshold set, the evaluator emits exactly one `below`
/// event exactly when the price is strictly under it; at the boundary value
/// itself it emits none.
pub proof fn lemma_lower_boundary_exclusive(
    asset: Seq<char>,
    price: u64,
    lower: u64,
    above: Option<u64>,
)
    ensures
        ({
            let evs = spec_evaluate(asset, price, Some(lower), above);
            &&& price < lower ==> count_direction(evs, Direction::Below) == 1 && evs[0]
                == (AlertView {
                asset,
                direction: Direction::Below,
                threshold: lower,
                observed: price,
            })
            &&& price >= lower ==> count_direction(evs, Direction::Below) == 0
        }),
{
    let evs = spec_evaluate(asset, price, Some(lower), above);
    let a: Seq<AlertView> = match above {
        Some(u) => if price > u {
            seq![AlertView { asset, direction: Direction::Above, threshold: u, observed: price }]
        } else {
            seq![]
        },
        None => seq![],
    };
    assert(count_direction(Seq::<AlertView>::empty(), Direction::Below) == 0);
    if price < lower {
        let bel = AlertView {
            asset,
            direction: Direction::Below,
            threshold: lower,
            observed: price,
        };
        assert(evs =~= seq![bel] + a);
        assert(evs[0] == bel);
        if a.len() == 1 {
            assert(evs.last() == a[0]);
            assert(evs.drop_last() =~= seq![bel]);
            assert(seq![bel].drop_last() =~= Seq::<AlertView>::empty());
            assert(count_direction(seq![bel], Direction::Below) == 1);
            assert(count_direction(evs, Direction::Below) == 1);
        } else {
            assert(evs =~= seq![bel]);
            assert(evs.drop_last() =~= Seq::<AlertView>::empty());
            assert(count_direction(evs, Direction::Below) == 1);
        }
    } else {
        assert(evs =~= a);
        if a.len() == 1 {
            assert(evs.drop_last() =~= Seq::<AlertView>::empty());
            assert(count_direction(evs, Direction::Below) == 0);
        } else {
            assert(evs =~= Seq::<AlertView>::empty());
            assert(count_direction(evs, Direction::Below) == 0);
        }
    }
}

/// With both bounds set the right way around (`lower < upper`), no single
/// price triggers both events in the same tick.
pub proof fn lemma_no_double_alert(asset: Seq<char>, price: u64, lower: u64, upper: u64)
    requires
        lower < upper,
    ensures
        count_direction(spec_evaluate(asset, price, Some(lower), Some(upper)), Direction::Above)
            == 0 || count_direction(
            spec_evaluate(asset, price, Some(lower), Some(upper)),
            Direction::Below,
        ) == 0,
        spec_evaluate(asset, price, Some(lower), Some(upper)).len() <= 1,
{
    lemma_upper_boundary_exclusive(asset, price, Some(lower), upper);
    lemma_lower_boundary_exclusive(asset, price, lower, Some(upper));
}

} // verus!
