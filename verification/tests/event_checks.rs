use bridge_mock::chainbridge_mock::helpers;
use bridge_mock::events::{
    assert_events, check_event_emitted, check_events, check_latest_event, event_exists, expect_event,
    last_event, latest_event, EventCheckError,
};

#[test]
fn check_events_accepts_latest_run() {
    let log = vec![1u32, 2, 3, 4];
    assert_eq!(check_events(&log, &[3, 4]), Ok(()));
    assert_eq!(check_events(&log, &[4]), Ok(()));
    assert_eq!(check_events(&log, &log), Ok(()));
}

#[test]
fn check_events_accepts_empty_run() {
    let log: Vec<u32> = vec![];
    assert_eq!(check_events(&log, &[]), Ok(()));
    assert_eq!(check_events(&[5u32], &[]), Ok(()));
}

#[test]
fn check_events_reports_latest_difference() {
    let log = vec![1u32, 2, 3, 4];
    assert_eq!(check_events(&log, &[3]), Err(EventCheckError::Mismatch { position: 3 }));
    assert_eq!(check_events(&log, &[9, 3, 4]), Err(EventCheckError::Mismatch { position: 1 }));
    assert_eq!(check_events(&log, &[7, 9, 4]), Err(EventCheckError::Mismatch { position: 2 }));
}

#[test]
fn check_events_reports_missing_event() {
    let log = vec![3u32, 4];
    assert_eq!(check_events(&log, &[2, 3, 4]), Err(EventCheckError::MissingEvent));
    let empty: Vec<u32> = vec![];
    assert_eq!(check_events(&empty, &[1]), Err(EventCheckError::MissingEvent));
}

#[test]
fn check_events_mismatch_before_missing() {
    let log = vec![3u32, 4];
    assert_eq!(check_events(&log, &[1, 2, 4]), Err(EventCheckError::Mismatch { position: 0 }));
}

#[test]
fn check_latest_event_checks_latest() {
    let log = vec![1u32, 2];
    assert_eq!(check_latest_event(&log, &2), Ok(()));
    assert_eq!(check_latest_event(&log, &1), Err(EventCheckError::Mismatch { position: 1 }));
    let empty: Vec<u32> = vec![];
    assert_eq!(check_latest_event(&empty, &1), Err(EventCheckError::MissingEvent));
}

#[test]
fn check_latest_event_agrees_with_single_run() {
    let log = vec![1u32, 2];
    for e in [1u32, 2, 3] {
        assert_eq!(check_latest_event(&log, &e), check_events(&log, &[e]));
    }
}

#[test]
fn check_event_emitted_searches_whole_log() {
    let log = vec![1u32, 2, 3];
    assert_eq!(check_event_emitted(&log, &1), Ok(()));
    assert_eq!(check_event_emitted(&log, &3), Ok(()));
    assert_eq!(check_event_emitted(&log, &4), Err(EventCheckError::NotEmitted));
    let empty: Vec<u32> = vec![];
    assert_eq!(check_event_emitted(&empty, &1), Err(EventCheckError::NotEmitted));
}

#[test]
fn latest_event_is_latest() {
    let log = vec![1u32, 2];
    assert_eq!(latest_event(&log), Some(&2));
    let empty: Vec<u32> = vec![];
    assert_eq!(latest_event(&empty), None);
}

#[test]
fn matched_run_events_were_emitted() {
    let log = vec![5u32, 6, 7];
    let run = [6u32, 7];
    assert_eq!(check_events(&log, &run), Ok(()));
    for e in run {
        assert_eq!(check_event_emitted(&log, &e), Ok(()));
    }
    assert_eq!(check_events(&log, &run[1..]), Ok(()));
}

#[test]
fn same_new_event_keeps_outcome() {
    let log = vec![1u32, 2, 3];
    let run = vec![9u32, 3];
    let before = check_events(&log, &run);
    let mut log2 = log.clone();
    log2.push(8);
    let mut run2 = run.clone();
    run2.push(8);
    assert_eq!(check_events(&log2, &run2), before);
    assert_eq!(check_latest_event(&log2, &8), Ok(()));
}

#[test]
fn events_work_for_strings() {
    let log = vec![String::from("RelayerAdded"), String::from("ChainWhitelisted")];
    assert_eq!(check_latest_event(&log, &String::from("ChainWhitelisted")), Ok(()));
    assert_eq!(check_event_emitted(&log, &String::from("RelayerAdded")), Ok(()));
}

#[test]
fn asserting_checks_return_on_their_domain() {
    let log = vec![1u32, 2, 3];
    assert_events(&log, &[2, 3]);
    assert_events(&log, &[]);
    expect_event(&log, &3);
    event_exists(&log, &1);
    assert_eq!(*last_event(&log), 3);
}

#[test]
fn chainbridge_helpers_reexport_checks() {
    let log = vec![4u32, 5];
    helpers::assert_events(&log, &[5]);
    assert_eq!(helpers::check_events(&log, &[4]), Err(EventCheckError::Mismatch { position: 1 }));
}
