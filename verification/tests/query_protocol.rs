use stock_signal::trino::{QueryRun, QueryStep, TrinoError, TrinoPage};

fn page(id: &str, next: Option<&str>, data: Option<Vec<u32>>, state: &str) -> TrinoPage<u32> {
    TrinoPage {
        id: id.to_string(),
        next_uri: next.map(|s| s.to_string()),
        data,
        state: state.to_string(),
        error: None,
    }
}

#[test]
fn submission_error_fails() {
    let mut p = page("q1", Some("http://n/1"), Some(vec![1]), "QUEUED");
    p.error = Some(TrinoError { message: "line 1: nope".to_string(), error_name: "SYNTAX_ERROR".to_string() });
    let (run, step) = QueryRun::begin(p);
    match step {
        QueryStep::Failed(m) => assert_eq!(m, "Trino [SYNTAX_ERROR]: line 1: nope"),
        other => panic!("unexpected {:?}", other),
    }
    assert!(run.into_rows().is_empty());
}

#[test]
fn rows_accumulate_in_page_order() {
    let (mut run, step) = QueryRun::begin(page("q", Some("u1"), Some(vec![1, 2]), "QUEUED"));
    assert!(matches!(step, QueryStep::Poll(ref u) if u == "u1"));
    let step = run.advance(page("q", Some("u2"), None, "RUNNING"));
    assert!(matches!(step, QueryStep::Poll(ref u) if u == "u2"));
    let step = run.advance(page("q", Some("u3"), Some(vec![3]), "RUNNING"));
    assert!(matches!(step, QueryStep::Poll(ref u) if u == "u3"));
    let step = run.advance(page("q", Some("u4"), Some(vec![4, 5]), "FINISHED"));
    assert!(matches!(step, QueryStep::Done));
    assert_eq!(run.into_rows(), vec![1, 2, 3, 4, 5]);
}

#[test]
fn no_next_address_ends_the_query() {
    let (run, step) = QueryRun::begin(page("q", None, Some(vec![9]), "FINISHED"));
    assert!(matches!(step, QueryStep::Done));
    assert_eq!(run.into_rows(), vec![9]);
    let (mut run, _) = QueryRun::begin(page("q", Some("u"), None, "QUEUED"));
    let step = run.advance(page("q", None, Some(vec![7]), "RUNNING"));
    assert!(matches!(step, QueryStep::Done));
    assert_eq!(run.into_rows(), vec![7]);
}

#[test]
fn failed_state_and_poll_error() {
    let (mut run, _) = QueryRun::begin(page("20240101_abc", Some("u"), None, "QUEUED"));
    let step = run.advance(page("20240101_abc", Some("u2"), Some(vec![1]), "FAILED"));
    match step {
        QueryStep::Failed(m) => assert_eq!(m, "Trino query failed: 20240101_abc"),
        other => panic!("unexpected {:?}", other),
    }
    let (mut run, _) = QueryRun::begin(page("q", Some("u"), Some(vec![1]), "QUEUED"));
    let mut p = page("q", Some("u2"), Some(vec![2]), "RUNNING");
    p.error = Some(TrinoError { message: "gone".to_string(), error_name: "EXCEEDED".to_string() });
    match run.advance(p) {
        QueryStep::Failed(m) => assert_eq!(m, "Trino [EXCEEDED]: gone"),
        other => panic!("unexpected {:?}", other),
    }
    assert_eq!(run.into_rows(), vec![1]);
}

#[test]
fn every_row_of_every_reply_in_arrival_order() {
    let (mut run, mut step) = QueryRun::begin(page("q", Some("u1"), Some(vec![10, 11]), "QUEUED"));
    let polls = vec![
        page("q", Some("u2"), None, "RUNNING"),
        page("q", Some("u3"), Some(vec![12]), "RUNNING"),
        page("q", Some("u4"), Some(vec![13, 14, 15]), "FINISHED"),
    ];
    for p in polls {
        assert!(matches!(step, QueryStep::Poll(_)));
        step = run.advance(p);
    }
    assert!(matches!(step, QueryStep::Done));
    assert_eq!(run.into_rows(), vec![10, 11, 12, 13, 14, 15]);
}
