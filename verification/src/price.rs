//! Price samples and the supported-currency catalogue: resolving a free-form
//! name or symbol to canonical asset ids, and pairing tracked assets with the
//! prices a fetch brought back.

use vstd::prelude::*;

use crate::config::{spec_lookup, lemma_lookup_first_match, lemma_lookup_none_iff};
use crate::digits::{spec_decimal, u64_to_decimal};
use crate::errors::CoreError;

verus! {

/// What one catalogue entry looks like to a specification.
pub struct CurrencyView {
    pub id: Seq<char>,
    pub symbol: Seq<char>,
    pub name: Seq<char>,
}

/// One entry of the supported-currency catalogue: the canonical asset id and
/// the symbol and human-readable name it may be looked up by.
pub struct SupportedCurrencies {
    id: String,
    symbol: String,
    name: String,
}

impl View for SupportedCurrencies {
    type V = CurrencyView;

    closed spec fn view(&self) -> CurrencyView {
        CurrencyView { id: self.id@, symbol: self.symbol@, name: self.name@ }
    }
}

impl DeepView for SupportedCurrencies {
    type V = CurrencyView;

    open spec fn deep_view(&self) -> CurrencyView {
        self.view()
    }
}

impl SupportedCurrencies {
    pub fn new(id: String, symbol: String, name: String) -> (c: Self)
        ensures
            c@.id == id@,
            c@.symbol == symbol@,
            c@.name == name@,
    {
        SupportedCurrencies { id, symbol, name }
    }
}

/// The case folding that `str::to_lowercase` performs; it depends on the
/// characters of the input alone.
pub uninterp spec fn lower_of(s: Seq<char>) -> Seq<char>;

/// Relies on str::to_lowercase: Unicode lowercasing, a function of the
/// input characters alone.
#[verifier::external_body]
fn lowercase(s: &str) -> (r: String)
    ensures
        r@ == lower_of(s@),
{
    s.to_lowercase()
}

/// Whether a catalogue entry answers to `query` by id, name or symbol,
/// compared case-insensitively.
pub open spec fn spec_matches_query(c: CurrencyView, query: Seq<char>) -> bool {
    ||| lower_of(c.id) == lower_of(query)
    ||| lower_of(c.name) == lower_of(query)
    ||| lower_of(c.symbol) == lower_of(query)
}

/// The ids of all catalogue entries matching `query`, in catalogue order.
pub open spec fn spec_matching_ids(cs: Seq<CurrencyView>, query: Seq<char>) -> Seq<Seq<char>>
    decreases cs.len(),
{
    if cs.len() == 0 {
        Seq::empty()
    } else {
        let rest = spec_matching_ids(cs.drop_last(), query);
        if spec_matches_query(cs.last(), query) {
            rest.push(cs.last().id)
        } else {
            rest
        }
    }
}

/// Resolves a free-form currency name or symbol to the canonical asset ids
/// it matches, case-insensitively; an empty match set is the
/// `UnsupportedAsset` error, never an empty `Ok`.
pub fn get_currency_ids(name_or_symbol: &str, supported: &Vec<SupportedCurrencies>) -> (r: Result<
    Vec<String>,
    CoreError,
>)
    ensures
        match r {
            Ok(ids) => ids.deep_view() == spec_matching_ids(
                supported.deep_view(),
                name_or_symbol@,
            ) && ids.deep_view().len() > 0,
            Err(e) => e == CoreError::UnsupportedAsset && spec_matching_ids(
                supported.deep_view(),
                name_or_symbol@,
            ).len() == 0,
        },
{
    let query = lowercase(name_or_symbol);
    let mut ids: Vec<String> = Vec::new();
    let n = supported.len();
    let mut i: usize = 0;
    while i < n
        invariant
            n == supported.deep_view().len(),
            i <= n,
            query@ == lower_of(name_or_symbol@),
            ids.deep_view() == spec_matching_ids(
                supported.deep_view().take(i as int),
                name_or_symbol@,
            ),
        decreases n - i,
    {
        let ghost prefix = supported.deep_view().take(i as int);
        let ghost ids_before = ids.deep_view();
        let entry = &supported[i];
        let id_low = lowercase(entry.id.as_str());
        let name_low = lowercase(entry.name.as_str());
        let symbol_low = lowercase(entry.symbol.as_str());
        let hit = <String as PartialEq<String>>::eq(&id_low, &query) || <String as PartialEq<
            String,
        >>::eq(&name_low, &query) || <String as PartialEq<String>>::eq(&symbol_low, &query);
        proof {
            assert(hit == spec_matches_query(supported.deep_view()[i as int], name_or_symbol@));
        }
        if hit {
            ids.push(entry.id.clone());
            proof {
                assert(ids.deep_view() =~= ids_before.push(entry.id@));
            }
        }
        proof {
            let next = supported.deep_view().take(i as int + 1);
            assert(next.drop_last() =~= prefix);
            assert(next.last() == supported.deep_view()[i as int]);
        }
        i = i + 1;
    }
    proof {
        assert(supported.deep_view().take(n as int) =~= supported.deep_view());
    }
    if ids.len() == 0 {
        Err(CoreError::UnsupportedAsset)
    } else {
        Ok(ids)
    }
}

/// What one price sample looks like to a specification.
pub struct SampleView {
    pub asset: Seq<char>,
    pub price: u64,
}

/// One price sample: an asset id and the price observed for it this tick.
pub struct PriceDetails {
    pub currency: String,
    pub price: u64,
}

impl View for PriceDetails {
    type V = SampleView;

    open spec fn view(&self) -> SampleView {
        SampleView { asset: self.currency@, price: self.price }
    }
}

impl DeepView for PriceDetails {
    type V = SampleView;

    open spec fn deep_view(&self) -> SampleView {
        self.view()
    }
}

/// The one-line rendering of a sample: the asset id, then the price.
pub open spec fn spec_price_line(s: SampleView) -> Seq<char> {
    s.asset + ": "@ + spec_decimal(s.price as nat) + " USD"@
}

impl PriceDetails {
    /// Renders the sample for the console, as `asset: price USD`.
    pub fn display_string(&self) -> (r: String)
        ensures
            r@ == spec_price_line(self@),
    {
        let mut r = self.currency.clone();
        r.append(": ");
        let d = u64_to_decimal(self.price);
        r.append(d.as_str());
        r.append(" USD");
        r
    }
}

/// One quote a price fetch brought back: an asset id and its price.
pub struct Quote {
    pub id: String,
    pub usd: u64,
}

impl DeepView for Quote {
    type V = (Seq<char>, u64);

    open spec fn deep_view(&self) -> (Seq<char>, u64) {
        (self.id@, self.usd)
    }
}

/// The samples that a set of quotes yields for the given asset ids: one per
/// id that has a quote, in the order the ids were requested; ids without a
/// quote are skipped.
pub open spec fn spec_collect_samples(ids: Seq<Seq<char>>, quotes: Seq<(Seq<char>, u64)>) -> Seq<
    SampleView,
>
    decreases ids.len(),
{
    if ids.len() == 0 {
        Seq::empty()
    } else {
        let rest = spec_collect_samples(ids.drop_last(), quotes);
        match spec_lookup(quotes, ids.last()) {
            Some(p) => rest.push(SampleView { asset: ids.last(), price: p }),
            None => rest,
        }
    }
}

/// The first quote for `id`, if the fetch brought one.
fn quote_for(quotes: &Vec<Quote>, id: &String) -> (r: Option<u64>)
    ensures
        r == spec_lookup(quotes.deep_view(), id@),
{
    let n = quotes.len();
    let mut i: usize = 0;
    loop
        invariant
            n == quotes.deep_view().len(),
            i <= n,
            forall|j: int| 0 <= j < i ==> (#[trigger] quotes.deep_view()[j]).0 != id@,
        decreases n - i,
    {
        if i == n {
            proof {
                lemma_lookup_none_iff(quotes.deep_view(), id@);
            }
            return None;
        }
        if <String as PartialEq<String>>::eq(&quotes[i].id, id) {
            proof {
                lemma_lookup_first_match(quotes.deep_view(), id@, i as int);
            }
            return Some(quotes[i].usd);
        }
        i = i + 1;
    }
}

/// Pairs each requested asset id with the price the fetch brought for it,
/// in request order; an asset the fetch has no quote for is skipped, so a
/// missing entry costs that asset its sample and nothing else.
pub fn prices(currencies: &Vec<String>, quotes: &Vec<Quote>) -> (r: Vec<PriceDetails>)
    ensures
        r.deep_view() == spec_collect_samples(currencies.deep_view(), quotes.deep_view()),
{
    let mut results: Vec<PriceDetails> = Vec::new();
    let n = currencies.len();
    let mut i: usize = 0;
    while i < n
        invariant
            n == currencies.deep_view().len(),
            i <= n,
            results.deep_view() == spec_collect_samples(
                currencies.deep_view().take(i as int),
                quotes.deep_view(),
            ),
        decreases n - i,
    {
        let ghost prefix = currencies.deep_view().take(i as int);
        let ghost results_before = results.deep_view();
        let currency = &currencies[i];
        match quote_for(quotes, currency) {
            Some(price) => {
                results.push(PriceDetails { currency: currency.clone(), price });
                proof {
                    assert(results.deep_view() =~= results_before.push(
                        SampleView { asset: currency@, price },
                    ));
                }
            },
            None => {},
        }
        proof {
            let next = currencies.deep_view().take(i as int + 1);
            assert(next.drop_last() =~= prefix);
            assert(next.last() == currencies.deep_view()[i as int]);
        }
        i = i + 1;
    }
    proof {
        assert(currencies.deep_view().take(n as int) =~= currencies.deep_view());
    }
    results
}

} // verus!
