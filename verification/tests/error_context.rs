use ingest_errors::error::{AbcCustomerBuilderError, AddContext, Error, ErrorKind};
use ingest_errors::render::render_context;

/// Drives the CSV reader over a malformed input (row two is shorter than
/// row one) until it reports a failure.
fn make_csv_error() -> csv::Error {
    let mut rdr = csv::ReaderBuilder::new()
        .has_headers(false)
        .from_reader("a,b\nc\n".as_bytes());
    for result in rdr.records() {
        if let Err(e) = result {
            return e;
        }
    }
    panic!("expected the reader to report a malformed row");
}

#[test]
fn csv_conversion_seeds_one_nonempty_entry_with_the_dump() {
    let raw = make_csv_error();
    let dump = format!("{:?}", raw);
    let err = Error::from_csv(raw);
    assert_eq!(err.context.len(), 1);
    let rendered = err.render();
    assert!(!rendered.is_empty());
    assert_eq!(rendered, dump);
}

#[test]
fn contexts_render_in_reverse_order_of_appending() {
    let err = Error::from_parse_terms(String::from("seed"))
        .add_context("c1")
        .add_context("c2");
    let rendered = err.render();
    assert_eq!(rendered, "c2 -> c1 -> seed");
    let at_c2 = rendered.find("c2").unwrap();
    let at_c1 = rendered.find("c1").unwrap();
    let at_seed = rendered.find("seed").unwrap();
    assert!(at_c2 < at_c1);
    assert!(at_c1 < at_seed);
}

#[test]
fn add_context_leaves_the_kind_and_its_payload_alone() {
    let err = Error::from_parse_terms(String::from("bad terms"));
    let err = err.add_context("first stage").add_context("second stage");
    match &err.kind {
        ErrorKind::ParseTermsFailure(description) => {
            assert_eq!(description, "bad terms");
        }
        _ => panic!("kind changed under add_context"),
    }
    assert_eq!(err.context.len(), 3);
}

#[test]
fn empty_context_renders_as_the_marker() {
    let no_entries: Vec<String> = Vec::new();
    assert_eq!(render_context(&no_entries), "no context");
}

#[test]
fn builder_failure_round_trip() {
    let inner = AbcCustomerBuilderError {
        message: String::from("field `payment_terms` is missing"),
    };
    let err = Error::from_builder(inner, "row 12").add_context("loading customers.csv");
    assert_eq!(
        err.render(),
        "loading customers.csv -> row 12 -> field `payment_terms` is missing"
    );
    match &err.kind {
        ErrorKind::BuilderFailure { inner, record } => {
            assert_eq!(inner.message, "field `payment_terms` is missing");
            assert_eq!(*record, "row 12");
        }
        _ => panic!("expected a builder failure"),
    }
}

#[test]
fn parse_terms_scenario() {
    let err = Error::from_parse_terms(String::from(
        "expected one of NET30/NET60/COD, got 'NET45'",
    ))
    .add_context("parsing PaymentTerms column");
    assert_eq!(
        err.render(),
        "parsing PaymentTerms column -> expected one of NET30/NET60/COD, got 'NET45'"
    );
}

#[test]
fn uncontextualized_csv_failure_renders_as_a_single_segment() {
    let raw = make_csv_error();
    let dump = format!("{:?}", raw);
    let rendered = Error::from_csv(raw).render();
    assert_eq!(rendered, dump);
    assert!(!rendered.contains(" -> "));
}

#[test]
fn combinator_passes_a_success_through_unchanged() {
    let ok: Result<u32, Error> = Ok(17);
    let ok = ok.add_context("never attached");
    assert_eq!(ok.unwrap(), 17);
}

#[test]
fn combinator_appends_context_to_a_failure() {
    let failed: Result<u32, Error> = Err(Error::from_parse_terms(String::from("seed")));
    let failed = failed.add_context("reading record");
    let err = failed.unwrap_err();
    assert_eq!(err.render(), "reading record -> seed");
    assert!(matches!(err.kind, ErrorKind::ParseTermsFailure(_)));
}
