//! Driving the pagination engine against scripted fetch outcomes.

use cloud_client::pagination::{apply_fetch_result, PaginationState};

#[test]
fn happy_path_flattens_three_pages() {
    let mut calls: usize = 0;
    let mut out: Vec<Result<i32, String>> = Vec::new();
    let mut state: PaginationState<()> = PaginationState::start(());
    loop {
        let (seed, token) = match state.into_request() {
            Some(request) => request,
            None => break,
        };
        calls += 1;
        let fetched: Result<(Vec<i32>, (), Option<String>), String> =
            match (calls, token.as_deref()) {
                (1, None) => Ok((vec![1, 2], seed, Some("A".to_string()))),
                (2, Some("A")) => Ok((vec![3, 4], seed, Some("B".to_string()))),
                (3, Some("B")) => Ok((vec![5], seed, Some("".to_string()))),
                other => panic!("unexpected fetch call: {other:?}"),
            };
        state = apply_fetch_result(&mut out, fetched);
    }
    assert_eq!(calls, 3);
    let items: Vec<i32> = out.into_iter().map(|r| r.unwrap()).collect();
    assert_eq!(items, vec![1, 2, 3, 4, 5]);
}

#[test]
fn error_is_the_terminal_element_and_stops_fetching() {
    let mut calls: usize = 0;
    let mut out: Vec<Result<i32, String>> = Vec::new();
    let mut state: PaginationState<()> = PaginationState::start(());
    loop {
        let (seed, token) = match state.into_request() {
            Some(request) => request,
            None => break,
        };
        calls += 1;
        let fetched: Result<(Vec<i32>, (), Option<String>), String> =
            match (calls, token.as_deref()) {
                (1, None) => Ok((vec![1, 2], seed, Some("A".to_string()))),
                (2, Some("A")) => Err("boom".to_string()),
                other => panic!("fetch after an error: {other:?}"),
            };
        state = apply_fetch_result(&mut out, fetched);
    }
    assert_eq!(calls, 2);
    assert_eq!(out.len(), 3);
    assert_eq!(out[0], Ok(1));
    assert_eq!(out[1], Ok(2));
    assert_eq!(out[2], Err("boom".to_string()));
}

#[test]
fn absent_token_ends_after_one_page() {
    let mut out: Vec<Result<u8, u8>> = Vec::new();
    let state = apply_fetch_result(&mut out, Ok((vec![9], 41u32, None)));
    assert!(state.into_request().is_none());
    assert_eq!(out, vec![Ok(9)]);
}

#[test]
fn seed_is_threaded_through_requests() {
    let state: PaginationState<u32> = PaginationState::start(7);
    let (seed, token) = state.into_request().unwrap();
    assert_eq!(seed, 7);
    assert_eq!(token, None);

    let mut out: Vec<Result<u8, u8>> = Vec::new();
    let next = apply_fetch_result(&mut out, Ok((vec![], 7u32, Some("next".to_string()))));
    let (seed, token) = next.into_request().unwrap();
    assert_eq!(seed, 7);
    assert_eq!(token.as_deref(), Some("next"));
}
