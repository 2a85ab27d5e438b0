//! Risk limits of the trading system: global thresholds and per-instrument
//! overrides, kept in a list ordered by instrument index.
use vstd::prelude::*;

use crate::decimal::{AmountError, Dec, dec_lt, dec_lt_spec, is_amount_error, parse_decimal_text, text_value};

verus! {

/// Individual risk limit thresholds.
#[derive(Clone, Copy, Debug, PartialEq, Eq)]
pub struct RiskLimits {
    /// Maximum notional exposure permitted for a single position.
    pub max_position_notional: Option<Dec>,
    /// Maximum position quantity permitted.
    pub max_position_quantity: Option<Dec>,
    /// Maximum leverage permitted for new positions.
    pub max_leverage: Option<Dec>,
    /// Maximum proportion of account equity allocatable to an instrument.
    pub max_exposure_percent: Option<Dec>,
}

/// Risk limits associated with a specific instrument.
#[derive(Clone, Copy, Debug, PartialEq, Eq)]
pub struct RiskInstrumentLimits {
    /// Index into the configured instruments.
    pub index: usize,
    /// Risk limits to apply to the instrument.
    pub limits: RiskLimits,
}

/// Errors that can occur while configuring risk limits.
#[derive(Clone, Copy, Debug, PartialEq)]
pub enum RiskLimitsError {
    /// A value must be strictly greater than zero.
    NonPositive { field: &'static str, value: Dec },
    /// Exposure percentage must lie within the interval (0, 1].
    ExposurePercentOutOfRange { exposure: Dec },
    /// Provided instrument index is out of bounds.
    InstrumentIndexOutOfBounds { index: usize, total: usize },
}

/// Risk manager configuration options for the trading system.
#[derive(Clone, Debug, PartialEq, Eq)]
pub struct RiskConfiguration {
    /// Global risk thresholds applied across the system.
    pub global: Option<RiskLimits>,
    /// Per-instrument risk overrides identified by instrument index.
    pub instruments: Vec<RiskInstrumentLimits>,
}

/// An optional decimal is absent or within what `rust_decimal` accepts.
pub open spec fn opt_dec_wf(value: Option<Dec>) -> bool {
    match value {
        Some(d) => d.wf(),
        None => true,
    }
}

/// An optional threshold is present and not strictly positive.
pub open spec fn non_positive(value: Option<Dec>) -> bool {
    match value {
        Some(d) => d.num() <= 0,
        None => false,
    }
}

/// An optional exposure is present and outside the interval (0, 1].
pub open spec fn exposure_out_of_range(value: Option<Dec>) -> bool {
    match value {
        Some(d) => d.num() <= 0 || dec_lt_spec(Dec { lo: 1, mid: 0, hi: 0, negative: false, scale: 0 }, d),
        None => false,
    }
}

impl RiskLimits {
    /// Every present threshold is a well-formed decimal.
    pub open spec fn wf(self) -> bool {
        &&& opt_dec_wf(self.max_position_notional)
        &&& opt_dec_wf(self.max_position_quantity)
        &&& opt_dec_wf(self.max_leverage)
        &&& opt_dec_wf(self.max_exposure_percent)
    }

    /// The error that validation reports for these limits, if any: the first
    /// non-positive threshold in field order, then an exposure outside (0, 1].
    pub open spec fn error(self) -> Option<RiskLimitsError> {
        if non_positive(self.max_position_notional) {
            Some(
                RiskLimitsError::NonPositive {
                    field: "max_position_notional",
                    value: self.max_position_notional->0,
                },
            )
        } else if non_positive(self.max_position_quantity) {
            Some(
                RiskLimitsError::NonPositive {
                    field: "max_position_quantity",
                    value: self.max_position_quantity->0,
                },
            )
        } else if non_positive(self.max_leverage) {
            Some(RiskLimitsError::NonPositive { field: "max_leverage", value: self.max_leverage->0 })
        } else if exposure_out_of_range(self.max_exposure_percent) {
            Some(RiskLimitsError::ExposurePercentOutOfRange { exposure: self.max_exposure_percent->0 })
        } else {
            None
        }
    }

    /// Limits with no threshold set.
    pub fn empty() -> (l: RiskLimits)
        ensures
            l == (RiskLimits {
                max_position_notional: None,
                max_position_quantity: None,
                max_leverage: None,
                max_exposure_percent: None,
            }),
    {
        RiskLimits {
            max_position_notional: None,
            max_position_quantity: None,
            max_leverage: None,
            max_exposure_percent: None,
        }
    }

    /// Checks that every present threshold is strictly positive and that the
    /// exposure, when present, lies in (0, 1].
    pub fn validate(&self) -> (r: Result<(), RiskLimitsError>)
        requires
            self.wf(),
        ensures
            r == (match self.error() {
                Some(e) => Err(e),
                None => Ok(()),
            }),
            r is Ok <==> limits_acceptable(*self),
    {
        proof {
            law_validation_accepts_exactly_acceptable_limits(*self);
        }
        if let Some(value) = self.max_position_notional {
            if value.is_non_positive() {
                return Err(RiskLimitsError::NonPositive { field: "max_position_notional", value });
            }
        }
        if let Some(value) = self.max_position_quantity {
            if value.is_non_positive() {
                return Err(RiskLimitsError::NonPositive { field: "max_position_quantity", value });
            }
        }
        if let Some(value) = self.max_leverage {
            if value.is_non_positive() {
                return Err(RiskLimitsError::NonPositive { field: "max_leverage", value });
            }
        }
        if let Some(exposure) = self.max_exposure_percent {
            let one = Dec::one();
            if exposure.is_non_positive() || dec_lt(&one, &exposure) {
                return Err(RiskLimitsError::ExposurePercentOutOfRange { exposure });
            }
        }
        Ok(())
    }
}


/// Every present threshold is strictly positive, and a present exposure lies
/// in (0, 1], each stated directly over the decimal's value.
pub open spec fn limits_acceptable(l: RiskLimits) -> bool {
    &&& (l.max_position_notional matches Some(d) ==> d.num() > 0)
    &&& (l.max_position_quantity matches Some(d) ==> d.num() > 0)
    &&& (l.max_leverage matches Some(d) ==> d.num() > 0)
    &&& (l.max_exposure_percent matches Some(d) ==> 0 < d.num() && d.num() <= d.den())
}

/// Validation refuses limits exactly when some present threshold is zero or
/// negative, or a present exposure lies outside (0, 1]; and what it reports
/// is an offending value of the field it names.
pub proof fn law_validation_accepts_exactly_acceptable_limits(l: RiskLimits)
    ensures
        l.error() is None <==> limits_acceptable(l),
        l.error() matches Some(RiskLimitsError::NonPositive { field, value }) ==> value.num() <= 0
            && ((field == "max_position_notional" && l.max_position_notional == Some(value)) || (
        field == "max_position_quantity" && l.max_position_quantity == Some(value)) || (field
            == "max_leverage" && l.max_leverage == Some(value))),
        l.error() matches Some(RiskLimitsError::ExposurePercentOutOfRange { exposure }) ==> (
        l.max_exposure_percent == Some(exposure) && (exposure.num() <= 0 || exposure.num()
            > exposure.den())),
        !(l.error() matches Some(RiskLimitsError::InstrumentIndexOutOfBounds { .. })),
{
    assert(Dec { lo: 1, mid: 0, hi: 0, negative: false, scale: 0 }.den() == 1);
    assert(Dec { lo: 1, mid: 0, hi: 0, negative: false, scale: 0 }.num() == 1);
}


// ---------------------------------------------------------------------------
// The per-instrument list, seen as a sequence.
// ---------------------------------------------------------------------------

/// The limits of the entries whose index is `k`, in list order.
pub open spec fn keyed(s: Seq<RiskInstrumentLimits>, k: usize) -> Seq<RiskLimits>
    decreases s.len(),
{
    if s.len() == 0 {
        Seq::empty()
    } else {
        (if s[0].index == k {
            seq![s[0].limits]
        } else {
            Seq::empty()
        }) + keyed(s.drop_first(), k)
    }
}

/// What a lookup of index `k` answers: the limits of the first entry with that index.
pub open spec fn lookup(s: Seq<RiskInstrumentLimits>, k: usize) -> Option<RiskLimits> {
    if keyed(s, k).len() > 0 {
        Some(keyed(s, k)[0])
    } else {
        None
    }
}

/// The list with the first entry of index `k` replaced by `(k, l)`, or with
/// `(k, l)` appended when no entry has index `k`.
pub open spec fn upserted(s: Seq<RiskInstrumentLimits>, k: usize, l: RiskLimits) -> Seq<
    RiskInstrumentLimits,
>
    decreases s.len(),
{
    if s.len() == 0 {
        seq![RiskInstrumentLimits { index: k, limits: l }]
    } else if s[0].index == k {
        seq![RiskInstrumentLimits { index: k, limits: l }] + s.drop_first()
    } else {
        seq![s[0]] + upserted(s.drop_first(), k, l)
    }
}

/// The list without any entry of index `k`, the others kept in order.
pub open spec fn without_index(s: Seq<RiskInstrumentLimits>, k: usize) -> Seq<RiskInstrumentLimits>
    decreases s.len(),
{
    if s.len() == 0 {
        Seq::empty()
    } else if s[0].index == k {
        without_index(s.drop_first(), k)
    } else {
        seq![s[0]] + without_index(s.drop_first(), k)
    }
}

/// The entries are in non-decreasing order of index.
pub open spec fn sorted_by_index(s: Seq<RiskInstrumentLimits>) -> bool {
    forall|i: int, j: int| 0 <= i <= j < s.len() ==> s[i].index <= s[j].index
}

/// `r` is `s` stably sorted by index: sorted, and for every index the entries
/// with that index appear in `r` in the order they have in `s`.
pub open spec fn is_stable_sort_of(r: Seq<RiskInstrumentLimits>, s: Seq<RiskInstrumentLimits>) -> bool {
    &&& sorted_by_index(r)
    &&& forall|j: usize| #[trigger] keyed(r, j) == keyed(s, j)
}

proof fn lemma_keyed_concat(a: Seq<RiskInstrumentLimits>, b: Seq<RiskInstrumentLimits>, k: usize)
    ensures
        keyed(a + b, k) == keyed(a, k) + keyed(b, k),
    decreases a.len(),
{
    if a.len() == 0 {
        assert(a + b =~= b);
        assert(keyed(a, k) + keyed(b, k) =~= keyed(b, k));
    } else {
        assert((a + b).drop_first() =~= a.drop_first() + b);
        lemma_keyed_concat(a.drop_first(), b, k);
        assert((a + b)[0] == a[0]);
        let head = if a[0].index == k {
            seq![a[0].limits]
        } else {
            Seq::<RiskLimits>::empty()
        };
        assert(keyed(a + b, k) == head + keyed((a + b).drop_first(), k));
        assert(head + (keyed(a.drop_first(), k) + keyed(b, k)) =~= (head + keyed(a.drop_first(), k))
            + keyed(b, k));
    }
}

proof fn lemma_keyed_single(e: RiskInstrumentLimits, k: usize)
    ensures
        keyed(seq![e], k) == (if e.index == k {
            seq![e.limits]
        } else {
            Seq::<RiskLimits>::empty()
        }),
{
    assert(seq![e].drop_first() =~= Seq::<RiskInstrumentLimits>::empty());
    assert(keyed(Seq::<RiskInstrumentLimits>::empty(), k) =~= Seq::<RiskLimits>::empty());
    if e.index == k {
        assert(seq![e.limits] + Seq::<RiskLimits>::empty() =~= seq![e.limits]);
    } else {
        assert(Seq::<RiskLimits>::empty() + Seq::<RiskLimits>::empty() =~= Seq::<RiskLimits>::empty());
    }
}

proof fn lemma_keyed_absent(s: Seq<RiskInstrumentLimits>, k: usize)
    requires
        forall|i: int| 0 <= i < s.len() ==> s[i].index != k,
    ensures
        keyed(s, k) == Seq::<RiskLimits>::empty(),
    decreases s.len(),
{
    if s.len() > 0 {
        lemma_keyed_absent(s.drop_first(), k);
        assert(Seq::<RiskLimits>::empty() + Seq::<RiskLimits>::empty() =~= Seq::<RiskLimits>::empty());
    }
}

/// The first entry of index `k` sits at position `p`: its limits head `keyed(s, k)`.
proof fn lemma_keyed_first(s: Seq<RiskInstrumentLimits>, k: usize, p: int)
    requires
        0 <= p < s.len(),
        s[p].index == k,
        forall|q: int| 0 <= q < p ==> s[q].index != k,
    ensures
        keyed(s, k).len() > 0,
        keyed(s, k)[0] == s[p].limits,
{
    assert(s =~= s.take(p) + s.skip(p));
    lemma_keyed_concat(s.take(p), s.skip(p), k);
    lemma_keyed_absent(s.take(p), k);
    assert(s.skip(p)[0] == s[p]);
    assert(keyed(s.skip(p), k) == seq![s[p].limits] + keyed(s.skip(p).drop_first(), k));
    assert(keyed(s, k) =~= keyed(s.skip(p), k));
}

proof fn lemma_keyed_upserted(s: Seq<RiskInstrumentLimits>, k: usize, l: RiskLimits, j: usize)
    ensures
        keyed(upserted(s, k, l), j) == (if j != k {
            keyed(s, j)
        } else if keyed(s, k).len() > 0 {
            keyed(s, k).update(0, l)
        } else {
            seq![l]
        }),
    decreases s.len(),
{
    let e = RiskInstrumentLimits { index: k, limits: l };
    lemma_keyed_single(e, j);
    if s.len() == 0 {
        lemma_keyed_single(e, j);
        assert(keyed(s, j) =~= Seq::<RiskLimits>::empty());
    } else if s[0].index == k {
        lemma_keyed_concat(seq![e], s.drop_first(), j);
        lemma_keyed_concat(seq![s[0]], s.drop_first(), j);
        lemma_keyed_single(s[0], j);
        assert(seq![s[0]] + s.drop_first() =~= s);
        if j == k {
            assert(keyed(s, k).update(0, l) =~= seq![l] + keyed(s.drop_first(), k));
        }
    } else {
        lemma_keyed_upserted(s.drop_first(), k, l, j);
        lemma_keyed_concat(seq![s[0]], upserted(s.drop_first(), k, l), j);
        lemma_keyed_concat(seq![s[0]], s.drop_first(), j);
        lemma_keyed_single(s[0], j);
        assert(seq![s[0]] + s.drop_first() =~= s);
        if j == k {
            assert(keyed(seq![s[0]], k) =~= Seq::<RiskLimits>::empty());
            assert(keyed(s, k) =~= keyed(s.drop_first(), k));
            if keyed(s, k).len() > 0 {
                assert(Seq::<RiskLimits>::empty() + keyed(s.drop_first(), k).update(0, l)
                    =~= keyed(s, k).update(0, l));
            } else {
                assert(Seq::<RiskLimits>::empty() + seq![l] =~= seq![l]);
            }
        }
    }
}

proof fn lemma_upserted_at(s: Seq<RiskInstrumentLimits>, k: usize, l: RiskLimits, p: int)
    requires
        0 <= p < s.len(),
        s[p].index == k,
        forall|q: int| 0 <= q < p ==> s[q].index != k,
    ensures
        upserted(s, k, l) == s.update(p, RiskInstrumentLimits { index: k, limits: l }),
    decreases s.len(),
{
    let e = RiskInstrumentLimits { index: k, limits: l };
    if p == 0 {
        assert(seq![e] + s.drop_first() =~= s.update(0, e));
    } else {
        assert(s.drop_first()[p - 1] == s[p]);
        lemma_upserted_at(s.drop_first(), k, l, p - 1);
        assert(seq![s[0]] + s.drop_first().update(p - 1, e) =~= s.update(p, e));
    }
}

proof fn lemma_upserted_absent(s: Seq<RiskInstrumentLimits>, k: usize, l: RiskLimits)
    requires
        forall|q: int| 0 <= q < s.len() ==> s[q].index != k,
    ensures
        upserted(s, k, l) == s.push(RiskInstrumentLimits { index: k, limits: l }),
    decreases s.len(),
{
    let e = RiskInstrumentLimits { index: k, limits: l };
    if s.len() == 0 {
        assert(seq![e] =~= s.push(e));
    } else {
        lemma_upserted_absent(s.drop_first(), k, l);
        assert(seq![s[0]] + s.drop_first().push(e) =~= s.push(e));
    }
}

proof fn lemma_without_concat(a: Seq<RiskInstrumentLimits>, b: Seq<RiskInstrumentLimits>, k: usize)
    ensures
        without_index(a + b, k) == without_index(a, k) + without_index(b, k),
    decreases a.len(),
{
    if a.len() == 0 {
        assert(a + b =~= b);
        assert(without_index(a, k) + without_index(b, k) =~= without_index(b, k));
    } else {
        assert((a + b).drop_first() =~= a.drop_first() + b);
        lemma_without_concat(a.drop_first(), b, k);
        assert((a + b)[0] == a[0]);
        if a[0].index != k {
            assert(seq![a[0]] + (without_index(a.drop_first(), k) + without_index(b, k)) =~= (seq![
                a[0],
            ] + without_index(a.drop_first(), k)) + without_index(b, k));
        }
    }
}

proof fn lemma_without_single(e: RiskInstrumentLimits, k: usize)
    ensures
        without_index(seq![e], k) == (if e.index == k {
            Seq::<RiskInstrumentLimits>::empty()
        } else {
            seq![e]
        }),
{
    assert(seq![e].drop_first() =~= Seq::<RiskInstrumentLimits>::empty());
    assert(without_index(seq![e].drop_first(), k) =~= Seq::<RiskInstrumentLimits>::empty());
    assert(seq![e] + Seq::<RiskInstrumentLimits>::empty() =~= seq![e]);
}

proof fn lemma_keyed_without(s: Seq<RiskInstrumentLimits>, k: usize, j: usize)
    ensures
        keyed(without_index(s, k), j) == (if j == k {
            Seq::<RiskLimits>::empty()
        } else {
            keyed(s, j)
        }),
    decreases s.len(),
{
    if s.len() > 0 {
        lemma_keyed_without(s.drop_first(), k, j);
        if s[0].index != k {
            lemma_keyed_concat(seq![s[0]], without_index(s.drop_first(), k), j);
            lemma_keyed_single(s[0], j);
            if j == k {
                assert(Seq::<RiskLimits>::empty() + Seq::<RiskLimits>::empty()
                    =~= Seq::<RiskLimits>::empty());
            }
        } else if j != k {
            assert(Seq::<RiskLimits>::empty() + keyed(s.drop_first(), j) =~= keyed(
                s.drop_first(),
                j,
            ));
        }
    }
}

/// Inserting `x` into a sorted list right after the entries whose index is at
/// most `x.index` keeps the list sorted and appends `x` to the entries of its index.
proof fn lemma_insert_sorted(r: Seq<RiskInstrumentLimits>, p: int, x: RiskInstrumentLimits)
    requires
        sorted_by_index(r),
        0 <= p <= r.len(),
        forall|q: int| 0 <= q < p ==> r[q].index <= x.index,
        forall|q: int| p <= q < r.len() ==> r[q].index > x.index,
    ensures
        sorted_by_index(r.insert(p, x)),
        forall|j: usize|
            #[trigger] keyed(r.insert(p, x), j) == (if j == x.index {
                keyed(r, j).push(x.limits)
            } else {
                keyed(r, j)
            }),
{
    let ins = r.insert(p, x);
    assert(ins =~= r.take(p) + (seq![x] + r.skip(p)));
    assert(r =~= r.take(p) + r.skip(p));
    assert forall|i: int, j: int| 0 <= i <= j < ins.len() implies ins[i].index <= ins[j].index by {
        if i < p && j < p {
        } else if i < p && j == p {
        } else if i < p {
            assert(ins[j] == r[j - 1]);
        } else if i == p && j == p {
        } else if i == p {
            assert(ins[j] == r[j - 1]);
        } else {
            assert(ins[i] == r[i - 1]);
            assert(ins[j] == r[j - 1]);
        }
    }
    assert forall|j: usize|
        #[trigger] keyed(r.insert(p, x), j) == (if j == x.index {
            keyed(r, j).push(x.limits)
        } else {
            keyed(r, j)
        }) by {
        lemma_keyed_concat(r.take(p), seq![x] + r.skip(p), j);
        lemma_keyed_concat(seq![x], r.skip(p), j);
        lemma_keyed_concat(r.take(p), r.skip(p), j);
        lemma_keyed_single(x, j);
        if j == x.index {
            lemma_keyed_absent(r.skip(p), j);
            assert(keyed(r.take(p), j) + (seq![x.limits] + Seq::<RiskLimits>::empty()) =~= (keyed(
                r.take(p),
                j,
            ) + Seq::<RiskLimits>::empty()).push(x.limits));
        } else {
            assert(Seq::<RiskLimits>::empty() + keyed(r.skip(p), j) =~= keyed(r.skip(p), j));
        }
    }
}

/// Stable insertion sort of the entries by index.
fn sort_by_index(v: &Vec<RiskInstrumentLimits>) -> (r: Vec<RiskInstrumentLimits>)
    ensures
        is_stable_sort_of(r@, v@),
{
    let mut r: Vec<RiskInstrumentLimits> = Vec::new();
    let mut n: usize = 0;
    proof {
        assert forall|j: usize| #[trigger] keyed(r@, j) == keyed(v@.take(0), j) by {
            assert(r@ =~= v@.take(0));
        }
    }
    while n < v.len()
        invariant
            n <= v.len(),
            sorted_by_index(r@),
            forall|j: usize| #[trigger] keyed(r@, j) == keyed(v@.take(n as int), j),
        decreases v.len() - n,
    {
        let x = v[n];
        let mut p: usize = 0;
        while p < r.len() && r[p].index <= x.index
            invariant
                p <= r.len(),
                forall|q: int| 0 <= q < p ==> r@[q].index <= x.index,
            decreases r.len() - p,
        {
            p = p + 1;
        }
        proof {
            assert forall|q: int| p <= q < r@.len() implies r@[q].index > x.index by {
                assert(r@[p as int].index <= r@[q].index);
            }
            lemma_insert_sorted(r@, p as int, x);
        }
        let ghost prev = r@;
        r.insert(p, x);
        proof {
            assert(v@.take(n as int + 1) =~= v@.take(n as int) + seq![x]);
            assert forall|j: usize| #[trigger] keyed(r@, j) == keyed(v@.take(n as int + 1), j) by {
                lemma_keyed_concat(v@.take(n as int), seq![x], j);
                lemma_keyed_single(x, j);
                if j == x.index {
                    assert(keyed(v@.take(n as int), j) + seq![x.limits] =~= keyed(prev, j).push(
                        x.limits,
                    ));
                } else {
                    assert(keyed(v@.take(n as int), j) + Seq::<RiskLimits>::empty() =~= keyed(
                        prev,
                        j,
                    ));
                }
            }
        }
        n = n + 1;
    }
    proof {
        assert(v@.take(v.len() as int) =~= v@);
    }
    r
}


/// The list without the entries of index `k`, others in order.
fn remove_index(v: &Vec<RiskInstrumentLimits>, k: usize) -> (r: Vec<RiskInstrumentLimits>)
    ensures
        r@ == without_index(v@, k),
{
    let mut r: Vec<RiskInstrumentLimits> = Vec::new();
    let mut n: usize = 0;
    proof {
        assert(v@.take(0) =~= Seq::<RiskInstrumentLimits>::empty());
        assert(r@ =~= without_index(v@.take(0), k));
    }
    while n < v.len()
        invariant
            n <= v.len(),
            r@ == without_index(v@.take(n as int), k),
        decreases v.len() - n,
    {
        let x = v[n];
        proof {
            assert(v@.take(n as int + 1) =~= v@.take(n as int) + seq![x]);
            lemma_without_concat(v@.take(n as int), seq![x], k);
            lemma_without_single(x, k);
        }
        if x.index != k {
            r.push(x);
        } else {
            assert(r@ + Seq::<RiskInstrumentLimits>::empty() =~= r@);
        }
        n = n + 1;
    }
    proof {
        assert(v@.take(v.len() as int) =~= v@);
    }
    r
}

/// Whether an optional set of limits passes validation, as `set_global`
/// and `set_instrument_limits` check it.
pub open spec fn limits_error(limits: Option<RiskLimits>) -> Option<RiskLimitsError> {
    match limits {
        Some(l) => l.error(),
        None => None,
    }
}

/// Validity of an optional set of limits as a value of its type.
pub open spec fn opt_limits_wf(limits: Option<RiskLimits>) -> bool {
    match limits {
        Some(l) => l.wf(),
        None => true,
    }
}

fn validate_opt(limits: &Option<RiskLimits>) -> (r: Result<(), RiskLimitsError>)
    requires
        opt_limits_wf(*limits),
    ensures
        r == (match limits_error(*limits) {
            Some(e) => Err(e),
            None => Ok(()),
        }),
{
    match limits {
        Some(l) => l.validate(),
        None => Ok(()),
    }
}

/// The value an optional threshold given as text is read as.
pub open spec fn opt_text_value(text: Option<&str>) -> Result<Option<Dec>, Option<Seq<char>>> {
    match text {
        None => Ok(None),
        Some(t) => match text_value(t@) {
            Ok(d) => Ok(Some(d)),
            Err(m) => Err(m),
        },
    }
}

/// Read an optional threshold given as text; an error names it by `label`.
fn opt_decimal_text(text: Option<&str>, label: &'static str) -> (r: Result<Option<Dec>, AmountError>)
    ensures
        match opt_text_value(text) {
            Ok(v) => r == Ok::<Option<Dec>, AmountError>(v) && opt_dec_wf(v),
            Err(m) => r matches Err(e) && is_amount_error(e, Err(m), label),
        },
{
    match text {
        None => Ok(None),
        Some(t) => match parse_decimal_text(t, label) {
            Ok(d) => Ok(Some(d)),
            Err(e) => Err(e),
        },
    }
}

impl RiskLimits {
    /// Limits from thresholds given as text, each read as a decimal when
    /// present, in field order; the first that is not a decimal is reported
    /// under its field's name.
    pub fn from_text(
        max_position_notional: Option<&str>,
        max_position_quantity: Option<&str>,
        max_leverage: Option<&str>,
        max_exposure_percent: Option<&str>,
    ) -> (r: Result<RiskLimits, AmountError>)
        ensures
            match (
                opt_text_value(max_position_notional),
                opt_text_value(max_position_quantity),
                opt_text_value(max_leverage),
                opt_text_value(max_exposure_percent),
            ) {
                (Err(m), _, _, _) => r matches Err(e) && is_amount_error(
                    e,
                    Err(m),
                    "max_position_notional",
                ),
                (Ok(_), Err(m), _, _) => r matches Err(e) && is_amount_error(
                    e,
                    Err(m),
                    "max_position_quantity",
                ),
                (Ok(_), Ok(_), Err(m), _) => r matches Err(e) && is_amount_error(
                    e,
                    Err(m),
                    "max_leverage",
                ),
                (Ok(_), Ok(_), Ok(_), Err(m)) => r matches Err(e) && is_amount_error(
                    e,
                    Err(m),
                    "max_exposure_percent",
                ),
                (Ok(a), Ok(b), Ok(c), Ok(d)) => r == Ok::<RiskLimits, AmountError>(
                    RiskLimits {
                        max_position_notional: a,
                        max_position_quantity: b,
                        max_leverage: c,
                        max_exposure_percent: d,
                    },
                ),
            },
            r matches Ok(l) ==> l.wf(),
    {
        let a = match opt_decimal_text(max_position_notional, "max_position_notional") {
            Ok(v) => v,
            Err(e) => return Err(e),
        };
        let b = match opt_decimal_text(max_position_quantity, "max_position_quantity") {
            Ok(v) => v,
            Err(e) => return Err(e),
        };
        let c = match opt_decimal_text(max_leverage, "max_leverage") {
            Ok(v) => v,
            Err(e) => return Err(e),
        };
        let d = match opt_decimal_text(max_exposure_percent, "max_exposure_percent") {
            Ok(v) => v,
            Err(e) => return Err(e),
        };
        Ok(
            RiskLimits {
                max_position_notional: a,
                max_position_quantity: b,
                max_leverage: c,
                max_exposure_percent: d,
            },
        )
    }
}

impl Default for RiskLimits {
    /// Limits with no threshold set.
    fn default() -> (l: RiskLimits)
        ensures
            l == (RiskLimits {
                max_position_notional: None,
                max_position_quantity: None,
                max_leverage: None,
                max_exposure_percent: None,
            }),
    {
        RiskLimits::empty()
    }
}

impl Default for RiskConfiguration {
    /// A configuration without global limits nor per-instrument overrides.
    fn default() -> (c: RiskConfiguration)
        ensures
            c.global is None,
            c.instruments@.len() == 0,
    {
        RiskConfiguration::new()
    }
}

impl RiskConfiguration {
    /// A configuration without global limits nor per-instrument overrides.
    pub fn new() -> (c: RiskConfiguration)
        ensures
            c.global is None,
            c.instruments@.len() == 0,
    {
        RiskConfiguration { global: None, instruments: Vec::new() }
    }

    /// Retrieve global risk limits if configured.
    pub fn global(&self) -> (r: Option<&RiskLimits>)
        ensures
            match r {
                Some(l) => self.global == Some(*l),
                None => self.global is None,
            },
    {
        match &self.global {
            Some(l) => Some(l),
            None => None,
        }
    }

    /// Update global risk limits; limits that fail validation are refused and
    /// leave the configuration unchanged.
    pub fn set_global(&mut self, limits: Option<RiskLimits>) -> (r: Result<(), RiskLimitsError>)
        requires
            opt_limits_wf(limits),
        ensures
            match limits_error(limits) {
                Some(e) => r == Err::<(), RiskLimitsError>(e) && final(self).global == old(self).global && final(self).instruments@ == old(self).instruments@,
                None => r is Ok && final(self).global == limits && final(self).instruments@ == old(self).instruments@,
            },
    {
        match validate_opt(&limits) {
            Err(e) => Err(e),
            Ok(()) => {
                self.global = limits;
                Ok(())
            },
        }
    }

    /// Retrieve the risk limits of the first entry for the given instrument index.
    pub fn instrument_limits(&self, index: usize) -> (r: Option<&RiskLimits>)
        ensures
            match r {
                Some(l) => lookup(self.instruments@, index) == Some(*l),
                None => lookup(self.instruments@, index) is None,
            },
    {
        let mut i: usize = 0;
        while i < self.instruments.len()
            invariant
                i <= self.instruments@.len(),
                forall|q: int| 0 <= q < i ==> self.instruments@[q].index != index,
            decreases self.instruments@.len() - i,
        {
            if self.instruments[i].index == index {
                proof {
                    lemma_keyed_first(self.instruments@, index, i as int);
                }
                return Some(&self.instruments[i].limits);
            }
            i = i + 1;
        }
        proof {
            lemma_keyed_absent(self.instruments@, index);
        }
        None
    }

    /// Update the risk limits of an instrument index. With `Some` limits that
    /// pass validation, the first entry of that index is replaced (or a new
    /// entry appended) and the list is then stably sorted by index; with
    /// `None`, every entry of that index is removed. Limits that fail
    /// validation are refused and leave the configuration unchanged.
    pub fn set_instrument_limits(&mut self, index: usize, limits: Option<RiskLimits>) -> (r: Result<
        (),
        RiskLimitsError,
    >)
        requires
            opt_limits_wf(limits),
        ensures
            final(self).global == old(self).global,
            match limits {
                Some(l) => match l.error() {
                    Some(e) => r == Err::<(), RiskLimitsError>(e) && final(self).instruments@ == old(self).instruments@,
                    None => r is Ok && is_stable_sort_of(
                        final(self).instruments@,
                        upserted(old(self).instruments@, index, l),
                    ),
                },
                None => r is Ok && final(self).instruments@ == without_index(
                    old(self).instruments@,
                    index,
                ),
            },
    {
        if let Err(e) = validate_opt(&limits) {
            return Err(e);
        }
        match limits {
            Some(l) => {
                let entry = RiskInstrumentLimits { index, limits: l };
                let mut p: usize = 0;
                while p < self.instruments.len() && self.instruments[p].index != index
                    invariant
                        p <= self.instruments@.len(),
                        forall|q: int| 0 <= q < p ==> self.instruments@[q].index != index,
                    decreases self.instruments@.len() - p,
                {
                    p = p + 1;
                }
                let ghost before = self.instruments@;
                if p < self.instruments.len() {
                    proof {
                        lemma_upserted_at(before, index, l, p as int);
                    }
                    self.instruments.set(p, entry);
                } else {
                    proof {
                        lemma_upserted_absent(before, index, l);
                    }
                    self.instruments.push(entry);
                }
                let sorted = sort_by_index(&self.instruments);
                self.instruments = sorted;
            },
            None => {
                let kept = remove_index(&self.instruments, index);
                self.instruments = kept;
            },
        }
        Ok(())
    }
}

// ---------------------------------------------------------------------------
// Laws of the per-instrument limits.
// ---------------------------------------------------------------------------

/// After limits are set for an index, a lookup of that index gives them back.
pub proof fn law_lookup_after_set(
    before: Seq<RiskInstrumentLimits>,
    after: Seq<RiskInstrumentLimits>,
    index: usize,
    limits: RiskLimits,
)
    requires
        is_stable_sort_of(after, upserted(before, index, limits)),
    ensures
        lookup(after, index) == Some(limits),
{
    lemma_keyed_upserted(before, index, limits, index);
    assert(keyed(after, index) == keyed(upserted(before, index, limits), index));
}

/// Setting the limits of one index leaves the lookup of every other index unchanged.
pub proof fn law_set_keeps_other_indices(
    before: Seq<RiskInstrumentLimits>,
    after: Seq<RiskInstrumentLimits>,
    index: usize,
    limits: RiskLimits,
    other: usize,
)
    requires
        is_stable_sort_of(after, upserted(before, index, limits)),
        other != index,
    ensures
        lookup(after, other) == lookup(before, other),
{
    lemma_keyed_upserted(before, index, limits, other);
    assert(keyed(after, other) == keyed(upserted(before, index, limits), other));
}

/// After the limits of an index are cleared, a lookup of that index finds nothing.
pub proof fn law_lookup_after_clear(before: Seq<RiskInstrumentLimits>, index: usize)
    ensures
        lookup(without_index(before, index), index) is None,
{
    lemma_keyed_without(before, index, index);
}

/// Clearing the limits of one index leaves the lookup of every other index unchanged.
pub proof fn law_clear_keeps_other_indices(
    before: Seq<RiskInstrumentLimits>,
    index: usize,
    other: usize,
)
    requires
        other != index,
    ensures
        lookup(without_index(before, index), other) == lookup(before, other),
{
    lemma_keyed_without(before, index, other);
}

/// Clearing keeps a sorted list sorted.
pub proof fn law_clear_keeps_sorted(before: Seq<RiskInstrumentLimits>, index: usize)
    requires
        sorted_by_index(before),
    ensures
        sorted_by_index(without_index(before, index)),
    decreases before.len(),
{
    if before.len() > 0 {
        law_clear_keeps_sorted(before.drop_first(), index);
        lemma_without_subset(before.drop_first(), index);
        let rest = without_index(before.drop_first(), index);
        if before[0].index != index {
            let w = seq![before[0]] + rest;
            assert forall|i: int, j: int| 0 <= i <= j < w.len() implies w[i].index <= w[j].index by {
                if i == 0 && j > 0 {
                    let q = choose|q: int| 0 <= q < before.drop_first().len() && before.drop_first()[q] == rest[j - 1];
                    assert(before[q + 1] == before.drop_first()[q]);
                } else if i > 0 {
                    assert(w[i] == rest[i - 1]);
                    assert(w[j] == rest[j - 1]);
                }
            }
        }
    }
}

/// The entries are in strictly increasing order of index: sorted, with no
/// index held twice.
pub open spec fn strictly_sorted_by_index(s: Seq<RiskInstrumentLimits>) -> bool {
    forall|i: int, j: int| 0 <= i < j < s.len() ==> s[i].index < s[j].index
}

/// In a strictly sorted list an index is held by at most one entry.
proof fn lemma_strict_keyed_at_most_one(s: Seq<RiskInstrumentLimits>, k: usize)
    requires
        strictly_sorted_by_index(s),
    ensures
        keyed(s, k).len() <= 1,
    decreases s.len(),
{
    if s.len() > 0 {
        let rest = s.drop_first();
        assert forall|i: int, j: int| 0 <= i < j < rest.len() implies rest[i].index
            < rest[j].index by {
            assert(rest[i] == s[i + 1] && rest[j] == s[j + 1]);
        }
        if s[0].index == k {
            assert forall|i: int| 0 <= i < rest.len() implies rest[i].index != k by {
                assert(rest[i] == s[i + 1]);
            }
            lemma_keyed_absent(rest, k);
        } else {
            lemma_strict_keyed_at_most_one(rest, k);
        }
    }
}

/// An entry of index `k` at position `p` makes `keyed(s, k)` non-empty.
proof fn lemma_keyed_has(s: Seq<RiskInstrumentLimits>, k: usize, p: int)
    requires
        0 <= p < s.len(),
        s[p].index == k,
    ensures
        keyed(s, k).len() >= 1,
{
    assert(s =~= s.take(p) + s.skip(p));
    lemma_keyed_concat(s.take(p), s.skip(p), k);
    assert(s.skip(p)[0] == s[p]);
    assert(keyed(s.skip(p), k) == seq![s[p].limits] + keyed(s.skip(p).drop_first(), k));
}

/// A sorted list in which no index is held twice is strictly sorted.
proof fn lemma_strict_from_keyed(s: Seq<RiskInstrumentLimits>)
    requires
        sorted_by_index(s),
        forall|k: usize| #[trigger] keyed(s, k).len() <= 1,
    ensures
        strictly_sorted_by_index(s),
{
    assert forall|i: int, j: int| 0 <= i < j < s.len() implies s[i].index < s[j].index by {
        if s[i].index == s[j].index {
            let k = s[i].index;
            assert(s =~= s.take(j) + s.skip(j));
            lemma_keyed_concat(s.take(j), s.skip(j), k);
            assert(s.take(j)[i] == s[i]);
            lemma_keyed_has(s.take(j), k, i);
            assert(s.skip(j)[0] == s[j]);
            lemma_keyed_has(s.skip(j), k, 0);
            assert(keyed(s, k).len() <= 1);
        }
    }
}

/// Setting the limits of an index keeps a list without repeated indices
/// strictly ordered by index.
pub proof fn law_set_keeps_strictly_sorted(
    before: Seq<RiskInstrumentLimits>,
    after: Seq<RiskInstrumentLimits>,
    index: usize,
    limits: RiskLimits,
)
    requires
        strictly_sorted_by_index(before),
        is_stable_sort_of(after, upserted(before, index, limits)),
    ensures
        strictly_sorted_by_index(after),
{
    assert forall|k: usize| #[trigger] keyed(after, k).len() <= 1 by {
        lemma_keyed_upserted(before, index, limits, k);
        lemma_strict_keyed_at_most_one(before, k);
        assert(keyed(after, k) == keyed(upserted(before, index, limits), k));
    }
    lemma_strict_from_keyed(after);
}

/// Clearing the limits of an index keeps a list without repeated indices
/// strictly ordered by index.
pub proof fn law_clear_keeps_strictly_sorted(before: Seq<RiskInstrumentLimits>, index: usize)
    requires
        strictly_sorted_by_index(before),
    ensures
        strictly_sorted_by_index(without_index(before, index)),
{
    assert(sorted_by_index(before)) by {
        assert forall|i: int, j: int| 0 <= i <= j < before.len() implies before[i].index
            <= before[j].index by {
            if i < j {
            }
        }
    }
    law_clear_keeps_sorted(before, index);
    let after = without_index(before, index);
    assert forall|k: usize| #[trigger] keyed(after, k).len() <= 1 by {
        lemma_keyed_without(before, index, k);
        lemma_strict_keyed_at_most_one(before, k);
    }
    lemma_strict_from_keyed(after);
}

/// Removing the first entry of index `k` removes the first of its limits and
/// leaves the other indices as they were.
proof fn lemma_keyed_remove_first(s: Seq<RiskInstrumentLimits>, k: usize, p: int, j: usize)
    requires
        0 <= p < s.len(),
        s[p].index == k,
        forall|q: int| 0 <= q < p ==> s[q].index != k,
    ensures
        keyed(s.remove(p), j) == (if j == k {
            keyed(s, k).drop_first()
        } else {
            keyed(s, j)
        }),
{
    let a = s.take(p);
    let b = s.skip(p + 1);
    assert(s =~= a + (seq![s[p]] + b));
    assert(s.remove(p) =~= a + b);
    lemma_keyed_concat(a, seq![s[p]] + b, j);
    lemma_keyed_concat(seq![s[p]], b, j);
    lemma_keyed_concat(a, b, j);
    lemma_keyed_single(s[p], j);
    if j == k {
        lemma_keyed_absent(a, k);
        assert(keyed(s, k) =~= seq![s[p].limits] + keyed(b, k));
        assert(keyed(s, k).drop_first() =~= keyed(b, k));
        assert(keyed(s.remove(p), k) =~= keyed(b, k));
    } else {
        assert(keyed(s, j) =~= keyed(a, j) + keyed(b, j));
    }
}

/// The position of the first entry of index `k`, in a list that holds one.
proof fn lemma_first_position(s: Seq<RiskInstrumentLimits>, k: usize) -> (p: int)
    requires
        keyed(s, k).len() > 0,
    ensures
        0 <= p < s.len(),
        s[p].index == k,
        forall|q: int| 0 <= q < p ==> s[q].index != k,
    decreases s.len(),
{
    if s[0].index == k {
        0
    } else {
        assert(keyed(s, k) =~= keyed(s.drop_first(), k));
        let q = lemma_first_position(s.drop_first(), k);
        assert(s[q + 1] == s.drop_first()[q]);
        assert forall|i: int| 0 <= i < q + 1 implies s[i].index != k by {
            if i > 0 {
                assert(s[i] == s.drop_first()[i - 1]);
            }
        }
        q + 1
    }
}

/// Two lists that hold the same limits for every index have the same length.
proof fn lemma_same_keyed_same_len(r: Seq<RiskInstrumentLimits>, s: Seq<RiskInstrumentLimits>)
    requires
        forall|j: usize| #[trigger] keyed(r, j) == keyed(s, j),
    ensures
        r.len() == s.len(),
    decreases s.len(),
{
    if s.len() == 0 {
        if r.len() > 0 {
            assert(keyed(s, r[0].index) =~= Seq::<RiskLimits>::empty());
            lemma_keyed_has(r, r[0].index, 0);
        }
    } else {
        let k = s[0].index;
        lemma_keyed_has(s, k, 0);
        assert(keyed(r, k) == keyed(s, k));
        let p = lemma_first_position(r, k);
        assert(s.remove(0) =~= s.drop_first());
        assert forall|j: usize| #[trigger] keyed(r.remove(p), j) == keyed(s.drop_first(), j) by {
            lemma_keyed_remove_first(r, k, p, j);
            lemma_keyed_remove_first(s, k, 0, j);
            assert(keyed(r, j) == keyed(s, j));
        }
        lemma_same_keyed_same_len(r.remove(p), s.drop_first());
    }
}

/// Upserting adds an entry exactly when the index held none.
proof fn lemma_upserted_len(s: Seq<RiskInstrumentLimits>, k: usize, l: RiskLimits)
    ensures
        upserted(s, k, l).len() == s.len() + (if keyed(s, k).len() > 0 {
            0int
        } else {
            1int
        }),
    decreases s.len(),
{
    if s.len() > 0 {
        lemma_upserted_len(s.drop_first(), k, l);
        if s[0].index == k {
            lemma_keyed_has(s, k, 0);
        } else {
            assert(keyed(s, k) =~= keyed(s.drop_first(), k));
        }
    }
}

/// Setting the limits of an index adds an entry only when the index had no
/// limits; otherwise the number of entries stays the same.
pub proof fn law_set_length(
    before: Seq<RiskInstrumentLimits>,
    after: Seq<RiskInstrumentLimits>,
    index: usize,
    limits: RiskLimits,
)
    requires
        is_stable_sort_of(after, upserted(before, index, limits)),
    ensures
        after.len() == before.len() + (if lookup(before, index) is Some {
            0int
        } else {
            1int
        }),
{
    lemma_same_keyed_same_len(after, upserted(before, index, limits));
    lemma_upserted_len(before, index, limits);
}

/// Every entry that clearing keeps comes from the list before clearing.
proof fn lemma_without_subset(s: Seq<RiskInstrumentLimits>, k: usize)
    ensures
        forall|i: int|
            0 <= i < without_index(s, k).len() ==> exists|q: int|
                0 <= q < s.len() && s[q] == #[trigger] without_index(s, k)[i],
    decreases s.len(),
{
    if s.len() > 0 {
        lemma_without_subset(s.drop_first(), k);
        let rest = without_index(s.drop_first(), k);
        assert forall|i: int| 0 <= i < without_index(s, k).len() implies exists|q: int|
            0 <= q < s.len() && s[q] == #[trigger] without_index(s, k)[i] by {
            if s[0].index == k {
                let q = choose|q: int| 0 <= q < s.drop_first().len() && s.drop_first()[q] == rest[i];
                assert(s[q + 1] == s.drop_first()[q]);
            } else if i == 0 {
                assert(s[0] == without_index(s, k)[0]);
            } else {
                assert(without_index(s, k)[i] == rest[i - 1]);
                let q = choose|q: int| 0 <= q < s.drop_first().len() && s.drop_first()[q] == rest[i - 1];
                assert(s[q + 1] == s.drop_first()[q]);
            }
        }
    }
}

} // verus!
