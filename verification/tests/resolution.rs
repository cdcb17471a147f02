use flakysaas::doc::JsonValue;
use flakysaas::errors::Error;
use flakysaas::errors::ErrorKind;
use flakysaas::errors::FetchError;
use flakysaas::pipeline::answer_currencies;
use flakysaas::pipeline::answer_quote;
use flakysaas::pipeline::QuoteRequest;
use flakysaas::resolve::list_currencies;
use flakysaas::resolve::resolve_rate;

fn entry(key: &[u8], value: JsonValue) -> (Vec<u8>, JsonValue) {
    (key.to_vec(), value)
}

fn number(value: f64) -> JsonValue {
    JsonValue::Number(value.to_bits())
}

/// The document `{"date": "2024-01-02", "usd": {"eur": 0.92, "gbp": 1.0, "jpy": 1.0}}`.
fn sample_doc() -> JsonValue {
    JsonValue::Object(vec![
        entry(b"date", JsonValue::Text(b"2024-01-02".to_vec())),
        entry(
            b"usd",
            JsonValue::Object(vec![
                entry(b"eur", number(0.92)),
                entry(b"gbp", number(1.0)),
                entry(b"jpy", number(1.0)),
            ]),
        ),
    ])
}

fn request(quote: &[u8], base: &[u8]) -> QuoteRequest {
    QuoteRequest {
        quote: quote.to_vec(),
        base: base.to_vec(),
    }
}

#[test]
fn resolves_exact_stored_rate() {
    let resp = answer_quote(Ok(sample_doc()), &request(b"eur", b"usd")).unwrap();
    assert_eq!(resp.rate_bits, 0.92f64.to_bits());
    assert_eq!(f64::from_bits(resp.rate_bits), 0.92);
    assert_eq!(resp.date, b"2024-01-02".to_vec());
    assert_eq!(resp.quote, b"EUR".to_vec());
    assert_eq!(resp.base, b"USD".to_vec());
}

#[test]
fn mixed_case_request_resolves_identically() {
    let lower = answer_quote(Ok(sample_doc()), &request(b"eur", b"usd")).unwrap();
    let mixed = answer_quote(Ok(sample_doc()), &request(b"Eur", b"USD")).unwrap();
    assert_eq!(mixed.rate_bits, lower.rate_bits);
    assert_eq!(mixed.date, lower.date);
    assert_eq!(mixed.quote, lower.quote);
    assert_eq!(mixed.base, lower.base);
    assert_eq!(mixed.quote, b"EUR".to_vec());
    assert_eq!(mixed.base, b"USD".to_vec());
}

#[test]
fn absent_quote_is_not_found() {
    let r = answer_quote(Ok(sample_doc()), &request(b"chf", b"usd"));
    match r {
        Err(Error::NotFound) => {}
        _ => panic!("an absent quote currency must surface as not-found"),
    }
}

#[test]
fn absent_base_is_internal_error() {
    let r = answer_quote(Ok(sample_doc()), &request(b"eur", b"gbp"));
    match r {
        Err(Error::Internal(_)) => {}
        _ => panic!("an absent base currency must surface as an internal error"),
    }
}

#[test]
fn quote_and_base_absence_statuses_differ() {
    let quote_missing = answer_quote(Ok(sample_doc()), &request(b"chf", b"usd")).unwrap_err();
    let base_missing = answer_quote(Ok(sample_doc()), &request(b"eur", b"chf")).unwrap_err();
    assert_eq!(quote_missing.status_code(), 404);
    assert_eq!(base_missing.status_code(), 500);
}

#[test]
fn non_numeric_rate_is_internal_error() {
    let doc = JsonValue::Object(vec![entry(
        b"usd",
        JsonValue::Object(vec![entry(b"eur", JsonValue::Text(b"0.92".to_vec()))]),
    )]);
    let e = answer_quote(Ok(doc), &request(b"eur", b"usd")).unwrap_err();
    assert_eq!(e.status_code(), 500);
}

#[test]
fn non_object_document_is_internal_error() {
    let doc = JsonValue::Array(vec![number(1.0)]);
    let e = answer_quote(Ok(doc), &request(b"eur", b"usd")).unwrap_err();
    assert_eq!(e.status_code(), 500);
}

#[test]
fn unreachable_upstream_is_not_found() {
    let e = answer_quote(Err(FetchError::Unreachable), &request(b"eur", b"usd")).unwrap_err();
    assert_eq!(e.status_code(), 404);
    assert!(e.log_detail().is_none());
}

#[test]
fn bad_shape_fetch_is_internal_error() {
    let e = answer_quote(Err(FetchError::BadShape), &request(b"eur", b"usd")).unwrap_err();
    assert_eq!(e.status_code(), 500);
}

#[test]
fn missing_date_falls_back_to_sentinel() {
    let doc = JsonValue::Object(vec![entry(
        b"usd",
        JsonValue::Object(vec![entry(b"eur", number(0.5))]),
    )]);
    let resp = answer_quote(Ok(doc), &request(b"eur", b"usd")).unwrap();
    assert_eq!(resp.date, b"<unknown>".to_vec());
    assert_eq!(resp.rate_bits, 0.5f64.to_bits());
}

#[test]
fn non_text_date_falls_back_to_sentinel() {
    let doc = JsonValue::Object(vec![
        entry(b"date", number(20240102.0)),
        entry(b"usd", JsonValue::Object(vec![entry(b"eur", number(0.5))])),
    ]);
    let resp = answer_quote(Ok(doc), &request(b"eur", b"usd")).unwrap();
    assert_eq!(resp.date, b"<unknown>".to_vec());
}

#[test]
fn catalog_lists_all_codes_of_reference_base() {
    let mut keys = answer_currencies(Ok(sample_doc())).unwrap();
    keys.sort();
    assert_eq!(
        keys,
        vec![b"eur".to_vec(), b"gbp".to_vec(), b"jpy".to_vec()]
    );
}

#[test]
fn catalog_lookup_ignores_request_casing() {
    let doc = sample_doc();
    let lower = list_currencies(&doc, &b"usd".to_vec()).unwrap();
    let upper = list_currencies(&doc, &b"USD".to_vec()).unwrap();
    assert_eq!(lower, upper);
    assert_eq!(lower.len(), 3);
}

#[test]
fn catalog_failures_are_classified() {
    let not_object = answer_currencies(Ok(JsonValue::Null)).unwrap_err();
    assert_eq!(not_object.status_code(), 500);
    let no_base = answer_currencies(Ok(JsonValue::Object(vec![entry(
        b"eur",
        JsonValue::Object(vec![]),
    )])))
    .unwrap_err();
    assert_eq!(no_base.status_code(), 500);
    let unreachable = answer_currencies(Err(FetchError::Unreachable)).unwrap_err();
    assert_eq!(unreachable.status_code(), 404);
}

#[test]
fn first_member_wins_on_duplicate_keys() {
    let doc = JsonValue::Object(vec![
        entry(
            b"usd",
            JsonValue::Object(vec![entry(b"eur", number(0.9)), entry(b"eur", number(0.1))]),
        ),
        entry(
            b"usd",
            JsonValue::Object(vec![entry(b"eur", number(0.7))]),
        ),
    ]);
    let (_, bits) = resolve_rate(&doc, &b"usd".to_vec(), &b"eur".to_vec()).unwrap();
    assert_eq!(bits, 0.9f64.to_bits());
}

#[test]
fn empty_document_and_empty_table() {
    let empty_doc = JsonValue::Object(vec![]);
    match resolve_rate(&empty_doc, &b"usd".to_vec(), &b"eur".to_vec()) {
        Err(ErrorKind::BaseNotFound) => {}
        _ => panic!("an empty document has no base table"),
    }
    let empty_table = JsonValue::Object(vec![entry(b"usd", JsonValue::Object(vec![]))]);
    match resolve_rate(&empty_table, &b"usd".to_vec(), &b"eur".to_vec()) {
        Err(ErrorKind::QuoteNotFound) => {}
        _ => panic!("an empty base table has no quote"),
    }
    let keys = list_currencies(&empty_table, &b"usd".to_vec()).unwrap();
    assert!(keys.is_empty());
}
