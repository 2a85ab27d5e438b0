use barter_python::command::{
    ensure_non_empty_list, filter_or_none, to_one_or_many, EmptyListError, InstrumentFilter,
    OneOrMany,
};

#[test]
fn filters_keep_the_given_indices() {
    assert_eq!(
        InstrumentFilter::exchanges(vec![0, 2]).unwrap(),
        InstrumentFilter::Exchanges(vec![0, 2])
    );
    assert_eq!(
        InstrumentFilter::instruments(vec![5]).unwrap(),
        InstrumentFilter::Instruments(vec![5])
    );
    assert_eq!(
        InstrumentFilter::underlyings(vec![(1, 0), (2, 0)]).unwrap(),
        InstrumentFilter::Underlyings(vec![(1, 0), (2, 0)])
    );
}

#[test]
fn filters_refuse_empty_lists() {
    assert_eq!(
        InstrumentFilter::exchanges(vec![]).unwrap_err(),
        EmptyListError { context: "InstrumentFilter.exchanges" }
    );
    assert_eq!(
        InstrumentFilter::instruments(vec![]).unwrap_err(),
        EmptyListError { context: "InstrumentFilter.instruments" }
    );
    assert_eq!(
        InstrumentFilter::underlyings(vec![]).unwrap_err(),
        EmptyListError { context: "InstrumentFilter.underlyings" }
    );
}

#[test]
fn missing_filter_selects_everything() {
    assert_eq!(filter_or_none(None), InstrumentFilter::Unfiltered);
    assert_eq!(InstrumentFilter::none(), InstrumentFilter::Unfiltered);
    let given = InstrumentFilter::Instruments(vec![3]);
    assert_eq!(filter_or_none(Some(given.clone())), given);
}

#[test]
fn non_empty_list_check() {
    let empty: Vec<u8> = Vec::new();
    assert_eq!(ensure_non_empty_list(&empty, "ctx"), Err(EmptyListError { context: "ctx" }));
    assert_eq!(ensure_non_empty_list(&vec![1u8], "ctx"), Ok(()));
}

#[test]
fn requests_become_one_or_many() {
    assert_eq!(
        to_one_or_many(Vec::<u8>::new(), "EngineEvent.send_open_requests"),
        Err(EmptyListError { context: "EngineEvent.send_open_requests" })
    );
    assert_eq!(to_one_or_many(vec![7u8], "ctx"), Ok(OneOrMany::One(7)));
    assert_eq!(to_one_or_many(vec![7u8, 8], "ctx"), Ok(OneOrMany::Many(vec![7, 8])));
}
