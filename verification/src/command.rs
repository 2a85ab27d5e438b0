//! Instrument filters that engine commands are scoped by, built from lists of
//! indices given by the user.
use vstd::prelude::*;

verus! {

/// Which instruments an engine command applies to.
#[derive(Clone, Debug, PartialEq, Eq)]
pub enum InstrumentFilter {
    /// Every instrument (no filtering).
    Unfiltered,
    /// The instruments traded on these exchanges (by exchange index).
    Exchanges(Vec<usize>),
    /// These instruments (by instrument index).
    Instruments(Vec<usize>),
    /// The instruments with these underlyings (pairs of base and quote asset index).
    Underlyings(Vec<(usize, usize)>),
}

/// A list that had to name at least one entry was empty; `context` names the constructor.
#[derive(Clone, Copy, Debug, PartialEq, Eq)]
pub struct EmptyListError {
    pub context: &'static str,
}

/// Refuse an empty list on behalf of `context`.
pub fn ensure_non_empty_list<T>(items: &Vec<T>, context: &'static str) -> (r: Result<(), EmptyListError>)
    ensures
        items@.len() == 0 ==> r == Err::<(), EmptyListError>(EmptyListError { context }),
        items@.len() > 0 ==> r is Ok,
{
    if items.len() == 0 {
        Err(EmptyListError { context })
    } else {
        Ok(())
    }
}

/// A non-empty list of items: exactly one, or more than one.
#[derive(Clone, Debug, PartialEq, Eq)]
pub enum OneOrMany<T> {
    One(T),
    Many(Vec<T>),
}

/// The items as one or many; an empty list is refused on behalf of `context`.
pub fn to_one_or_many<T>(items: Vec<T>, context: &'static str) -> (r: Result<OneOrMany<T>, EmptyListError>)
    ensures
        items@.len() == 0 ==> r == Err::<OneOrMany<T>, EmptyListError>(EmptyListError { context }),
        items@.len() == 1 ==> (r matches Ok(OneOrMany::One(x)) && x == items@[0]),
        items@.len() > 1 ==> (r matches Ok(OneOrMany::Many(v)) && v@ == items@),
{
    if items.len() == 0 {
        Err(EmptyListError { context })
    } else if items.len() == 1 {
        let mut items = items;
        let x = items.remove(0);
        Ok(OneOrMany::One(x))
    } else {
        Ok(OneOrMany::Many(items))
    }
}

impl InstrumentFilter {
    /// The filter that selects every instrument.
    pub fn none() -> (r: InstrumentFilter)
        ensures
            r is Unfiltered,
    {
        InstrumentFilter::Unfiltered
    }

    /// Select the instruments of the given exchanges; the list may not be empty.
    pub fn exchanges(indices: Vec<usize>) -> (r: Result<InstrumentFilter, EmptyListError>)
        ensures
            indices@.len() == 0 ==> r == Err::<InstrumentFilter, EmptyListError>(
                EmptyListError { context: "InstrumentFilter.exchanges" },
            ),
            indices@.len() > 0 ==> (r matches Ok(InstrumentFilter::Exchanges(v)) && v@ == indices@),
    {
        match ensure_non_empty_list(&indices, "InstrumentFilter.exchanges") {
            Err(e) => Err(e),
            Ok(()) => Ok(InstrumentFilter::Exchanges(indices)),
        }
    }

    /// Select the given instruments; the list may not be empty.
    pub fn instruments(indices: Vec<usize>) -> (r: Result<InstrumentFilter, EmptyListError>)
        ensures
            indices@.len() == 0 ==> r == Err::<InstrumentFilter, EmptyListError>(
                EmptyListError { context: "InstrumentFilter.instruments" },
            ),
            indices@.len() > 0 ==> (r matches Ok(InstrumentFilter::Instruments(v)) && v@
                == indices@),
    {
        match ensure_non_empty_list(&indices, "InstrumentFilter.instruments") {
            Err(e) => Err(e),
            Ok(()) => Ok(InstrumentFilter::Instruments(indices)),
        }
    }

    /// Select the instruments with the given (base, quote) underlyings; the
    /// list may not be empty.
    pub fn underlyings(pairs: Vec<(usize, usize)>) -> (r: Result<InstrumentFilter, EmptyListError>)
        ensures
            pairs@.len() == 0 ==> r == Err::<InstrumentFilter, EmptyListError>(
                EmptyListError { context: "InstrumentFilter.underlyings" },
            ),
            pairs@.len() > 0 ==> (r matches Ok(InstrumentFilter::Underlyings(v)) && v@ == pairs@),
    {
        match ensure_non_empty_list(&pairs, "InstrumentFilter.underlyings") {
            Err(e) => Err(e),
            Ok(()) => Ok(InstrumentFilter::Underlyings(pairs)),
        }
    }
}

/// The filter a command uses: the one given, or every instrument when none is given.
pub fn filter_or_none(filter: Option<InstrumentFilter>) -> (r: InstrumentFilter)
    ensures
        match filter {
            Some(f) => r == f,
            None => r is Unfiltered,
        },
{
    match filter {
        Some(f) => f,
        None => InstrumentFilter::Unfiltered,
    }
}

} // verus!
