use burst_elastic::bootstrap::{
    after_exists_check, body_field, creation_failed, index_name, index_schema, BootstrapStep,
    NUMBER_OF_REPLICAS, NUMBER_OF_SHARDS,
};
use burst_elastic::bulk::build_bulk_request;
use burst_elastic::clock::{get_current_time, millis_of, should_report};
use burst_elastic::dispatch::{cores_from, get_avaliable_cores, select_cores, DispatchError};
use burst_elastic::endpoint::{get_client, normalize_url, url_has_scheme};
use burst_elastic::generator::{init_fake_data, FakeData};
use burst_elastic::progress::ProgressCounter;
use burst_elastic::window::{Action, ConcurrencyWindow};

fn record(id: &str, body: &str) -> FakeData {
    FakeData { id: id.to_string(), body: body.to_string() }
}

#[test]
fn first_cycle_with_chunk_two_issues_and_counts_two() {
    let mut window = ConcurrencyWindow::new(2);
    let counter = ProgressCounter::new();
    let mut issued = 0usize;
    assert_eq!(window.next_action(), Action::Submit);
    window.on_submitted();
    issued += 1;
    assert_eq!(window.next_action(), Action::Submit);
    window.on_submitted();
    issued += 1;
    assert_eq!(window.pending(), 2);
    assert_eq!(window.next_action(), Action::AwaitCompletion);
    window.on_completed();
    counter.record_completion();
    assert_eq!(window.next_action(), Action::AwaitCompletion);
    window.on_completed();
    counter.record_completion();
    assert_eq!(issued, 2);
    assert_eq!(counter.value(), 2);
    assert_eq!(window.pending(), 0);
    assert_eq!(window.next_action(), Action::Submit);
}

#[test]
fn window_never_exceeds_its_bound() {
    for k in 1..6usize {
        let mut window = ConcurrencyWindow::new(k);
        let mut max_seen = 0usize;
        for _ in 0..(10 * k) {
            match window.next_action() {
                Action::Submit => window.on_submitted(),
                Action::AwaitCompletion => window.on_completed(),
            }
            assert!(window.pending() <= window.capacity());
            if window.pending() == k {
                assert_eq!(window.next_action(), Action::AwaitCompletion);
            }
            max_seen = max_seen.max(window.pending());
        }
        assert_eq!(max_seen, k);
    }
}

#[test]
fn counter_after_cycles_is_cycles_times_chunk() {
    let k = 3usize;
    let cycles = 4usize;
    let mut window = ConcurrencyWindow::new(k);
    let counter = ProgressCounter::new();
    let mut last = 0usize;
    for _ in 0..(2 * k * cycles) {
        match window.next_action() {
            Action::Submit => window.on_submitted(),
            Action::AwaitCompletion => {
                window.on_completed();
                counter.record_completion();
            }
        }
        assert!(counter.value() >= last);
        last = counter.value();
    }
    assert_eq!(counter.value(), cycles * k);
    assert_eq!(window.pending(), 0);
    assert!(!window.is_draining());
}

#[test]
fn progress_counter_counts_from_zero() {
    let counter = ProgressCounter::new();
    assert_eq!(counter.value(), 0);
    assert_eq!(counter.record_completion(), 0);
    assert_eq!(counter.record_completion(), 1);
    assert_eq!(counter.value(), 2);
}

#[test]
fn plain_host_gets_http_prefix() {
    assert_eq!(normalize_url("localhost:9200"), "http://localhost:9200");
    assert!(!url_has_scheme("localhost:9200"));
}

#[test]
fn url_with_scheme_is_kept() {
    assert_eq!(normalize_url("https://x:9200"), "https://x:9200");
    assert_eq!(normalize_url("http://localhost:9200"), "http://localhost:9200");
    assert!(url_has_scheme("https://x:9200"));
}

#[test]
fn scheme_edge_cases() {
    assert_eq!(normalize_url(""), "http://");
    assert!(!url_has_scheme("://x"));
    assert!(!url_has_scheme("1http://x"));
    assert!(!url_has_scheme("http:/x"));
    assert!(url_has_scheme("svn+ssh://x"));
    assert_eq!(normalize_url("1http://x"), "http://1http://x");
}

#[test]
fn client_is_built_for_plain_host() {
    assert!(get_client("localhost:9200").is_ok());
}

#[test]
fn select_cores_takes_a_prefix() {
    let available = vec![4usize, 5, 6, 7];
    assert_eq!(select_cores(&available, 2), Ok(vec![4usize, 5]));
    assert_eq!(select_cores(&available, 4), Ok(available.clone()));
    assert_eq!(select_cores(&available, 0), Ok(vec![]));
}

#[test]
fn too_many_cores_is_rejected() {
    let available = vec![0usize, 1];
    assert_eq!(
        select_cores(&available, 3),
        Err(DispatchError::TooManyCores { requested: 3, available: 2 })
    );
    match get_avaliable_cores(usize::MAX) {
        Err(DispatchError::TooManyCores { requested, .. }) => assert_eq!(requested, usize::MAX),
        Err(DispatchError::CoresUnknown) => {}
        Ok(_) => panic!("selected more cores than the host has"),
    }
}

#[test]
fn one_core_is_available_here() {
    match get_avaliable_cores(1) {
        Ok(cores) => assert_eq!(cores.len(), 1),
        Err(e) => assert_eq!(e, DispatchError::CoresUnknown),
    }
}

#[test]
fn unreported_cores_choose_nothing() {
    assert_eq!(cores_from(None, 1), Err(DispatchError::CoresUnknown));
    assert_eq!(cores_from(None, 0), Err(DispatchError::CoresUnknown));
    assert_eq!(cores_from(Some(vec![2usize, 3, 9]), 2), Ok(vec![2usize, 3]));
    assert_eq!(
        cores_from(Some(vec![2usize]), 2),
        Err(DispatchError::TooManyCores { requested: 2, available: 1 })
    );
}

#[test]
fn report_sampling_rule() {
    assert!(should_report(0));
    assert!(should_report(1_700_000_000_000));
    assert!(!should_report(1_700_000_000_001));
    assert!(!should_report(9_999));
}

#[test]
fn millis_conversion() {
    assert_eq!(millis_of(0, 0), 0);
    assert_eq!(millis_of(1, 999_999), 1000);
    assert_eq!(millis_of(1, 1_000_000), 1001);
    assert_eq!(millis_of(1_700_000_000, 999_999_999), 1_700_000_000_999);
    assert_eq!(millis_of(u64::MAX, 999_999_999), u64::MAX as u128 * 1000 + 999);
}

#[test]
fn current_time_is_after_epoch() {
    let now = get_current_time().expect("clock before the epoch");
    assert!(now > 1_500_000_000_000);
}

#[test]
fn bootstrap_creates_only_when_missing() {
    assert_eq!(after_exists_check(404), BootstrapStep::CreateIndex);
    assert_eq!(after_exists_check(200), BootstrapStep::Done);
    assert_eq!(after_exists_check(500), BootstrapStep::Done);
}

#[test]
fn creation_status_classification() {
    assert!(!creation_failed(200));
    assert!(!creation_failed(299));
    assert!(creation_failed(300));
    assert!(creation_failed(400));
    assert!(creation_failed(199));
}

#[test]
fn index_schema_constants() {
    assert_eq!(index_name(), "test");
    assert_eq!(body_field(), "body");
    assert_eq!(NUMBER_OF_SHARDS, 3);
    assert_eq!(NUMBER_OF_REPLICAS, 0);
    let schema: serde_json::Value = serde_json::from_str(index_schema()).unwrap();
    assert_eq!(schema["mappings"]["properties"]["body"]["type"], "text");
    assert_eq!(schema["settings"]["index.number_of_shards"], 3);
    assert_eq!(schema["settings"]["index.number_of_replicas"], 0);
}

#[test]
fn batch_has_chunk_size_records_with_uuid_ids() {
    let batch = init_fake_data(5);
    assert_eq!(batch.len(), 5);
    for (i, r) in batch.iter().enumerate() {
        let id: Vec<char> = r.id().chars().collect();
        assert_eq!(id.len(), 36);
        for (j, c) in id.iter().enumerate() {
            if j == 8 || j == 13 || j == 18 || j == 23 {
                assert_eq!(*c, '-');
            } else {
                assert!(c.is_ascii_digit() || ('a'..='f').contains(c));
            }
        }
        assert_eq!(id[14], '4');
        assert!(matches!(id[19], '8' | '9' | 'a' | 'b'));
        assert!(r.body().ends_with('.'));
        for other in batch.iter().skip(i + 1) {
            assert_ne!(r.id(), other.id());
        }
    }
    assert!(init_fake_data(0).is_empty());
}

#[test]
fn bulk_request_keys_and_routes_by_id() {
    let batch = vec![record("a1", "first"), record("b2", "second")];
    let ops = build_bulk_request(&batch);
    assert_eq!(ops.len(), 2);
    assert_eq!(ops[0].id, "a1");
    assert_eq!(ops[0].routing, "a1");
    assert_eq!(ops[0].source.body, "first");
    assert_eq!(ops[1].id, "b2");
    assert_eq!(ops[1].routing, "b2");
    assert_eq!(ops[1].source.id, "b2");
    assert!(build_bulk_request(&Vec::new()).is_empty());
}
