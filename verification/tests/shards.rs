//! Shards: how they start, get their requests, and take turns.
use afterburner_wasi::daemon_http::DaemonHttp;
use afterburner_wasi::daemon_shard_pool::{
    after_dispatch, batch, cancel_pending_reply, check_shard_count, idle_nanos, init_error,
    next_source, queue_depth, shards_to_run, shows_stderr, sort_by_shard, AfterDispatch,
    DaemonShardPool, DispatchOutcome, Dispatcher, InitFailure, InitOutcome, InitResult, LoopStep,
    PoolInit, RouteStep, Source, StreamMark, Turn, DEFAULT_SHARD_QUEUE_DEPTH, MAX_SHARDS,
};
use afterburner_wasi::error::AfterburnerError;

fn result(shard_idx: usize) -> InitResult {
    InitResult { shard_idx, has_refs: true, stdout: vec![shard_idx as u8], stderr: vec![] }
}

fn failure(shard_idx: usize) -> InitFailure {
    InitFailure {
        shard_idx,
        error: AfterburnerError::Timeout,
        stdout: vec![],
        stderr: b"boom".to_vec(),
    }
}

#[test]
fn pool_has_at_least_one_shard_and_not_too_many() {
    assert!(check_shard_count(1).is_ok());
    assert!(check_shard_count(MAX_SHARDS).is_ok());
    assert!(check_shard_count(0).is_err());
    assert!(check_shard_count(MAX_SHARDS + 1).is_err());
    assert_eq!(queue_depth(None), DEFAULT_SHARD_QUEUE_DEPTH);
    assert_eq!(queue_depth(Some(3)), 3);
}

#[test]
fn further_shards_start_only_where_they_are_of_use() {
    assert_eq!(shards_to_run(true, 8, false, 0), 8);
    assert_eq!(shards_to_run(true, 8, true, 1), 8);
    assert_eq!(shards_to_run(true, 8, true, 0), 1);
    assert_eq!(shards_to_run(false, 8, false, 1), 1);
}

#[test]
fn results_come_in_shard_order() {
    let sorted = sort_by_shard(vec![result(2), result(0), result(1)]);
    let order: Vec<usize> = sorted.iter().map(|r| r.shard_idx).collect();
    assert_eq!(order, vec![0, 1, 2]);
    assert_eq!(sorted[2].stdout, vec![2]);
}

#[test]
fn first_failure_ends_the_start() {
    let mut init = PoolInit::new();
    init.record(InitOutcome::Started(result(1)));
    assert!(init.all_started());
    init.record(InitOutcome::Failed(failure(2)));
    init.record(InitOutcome::Failed(failure(0)));
    assert!(!init.all_started());
    match init.finish() {
        Err(f) => assert_eq!(f.shard_idx, 2),
        Ok(_) => panic!("a shard failed"),
    }
}

#[test]
fn start_without_failure_gives_all_results() {
    let mut init = PoolInit::new();
    init.record(InitOutcome::Started(result(1)));
    init.record(InitOutcome::Started(result(0)));
    let results = init.finish().unwrap();
    assert_eq!(results.iter().map(|r| r.shard_idx).collect::<Vec<_>>(), vec![0, 1]);
}

#[test]
fn exits_are_told_apart_from_failures() {
    assert!(!shows_stderr(&AfterburnerError::ProcessExit(3)));
    assert!(shows_stderr(&AfterburnerError::Timeout));
    assert!(matches!(
        init_error(0, AfterburnerError::ProcessExit(3), "exit"),
        AfterburnerError::ProcessExit(3)
    ));
    match init_error(2, AfterburnerError::Timeout, "timeout") {
        AfterburnerError::Engine(text) => assert!(text.contains('2') && text.contains("timeout")),
        other => panic!("{other:?}"),
    }
}

#[test]
fn pool_counts_what_its_shards_say() {
    let pool = DaemonShardPool {
        alive: vec![true, false, true],
        refs: vec![false, true, false],
        handled: vec![4, 5, 6],
        results: vec![result(0), result(2)],
    };
    assert_eq!(pool.shard_count(), 3);
    assert_eq!(pool.shards_alive(), 2);
    assert!(pool.any_has_refs());
    assert_eq!(pool.init_results().len(), 2);
    assert_eq!(pool.request_counts(), &vec![4, 5, 6]);
}

#[test]
fn requests_go_round_the_shards() {
    let mut dispatcher = Dispatcher::new();
    let alive = vec![true, true, true];
    let mut offered = vec![];
    for _ in 0..6 {
        match dispatcher.begin(3).step(&alive) {
            RouteStep::Offer(i) => offered.push(i),
            other => panic!("{other:?}"),
        }
    }
    assert_eq!(offered, vec![0, 1, 2, 0, 1, 2]);
}

#[test]
fn refused_request_is_offered_to_each_living_shard_once() {
    let mut route = Dispatcher::new().begin(4);
    let alive = vec![true, false, true, true];
    let mut offered = vec![];
    loop {
        match route.step(&alive) {
            RouteStep::Offer(i) => offered.push(i),
            RouteStep::Wait(i) => {
                assert!(alive[i]);
                break;
            }
            RouteStep::Discard => panic!("shards are alive"),
        }
    }
    assert_eq!(offered, vec![0, 2, 3]);
}

#[test]
fn request_waits_for_a_shard_that_runs() {
    let mut route = Dispatcher::new().begin(2);
    let alive = vec![false, true];
    assert!(matches!(route.step(&alive), RouteStep::Offer(1)));
    assert!(matches!(route.step(&alive), RouteStep::Wait(1)));
    let mut dispatcher = Dispatcher::new();
    dispatcher.begin(4);
    let mut route = dispatcher.begin(4);
    let alive = vec![true, false, false, true];
    assert!(matches!(route.step(&alive), RouteStep::Offer(3)));
    assert!(matches!(route.step(&alive), RouteStep::Offer(0)));
    assert!(matches!(route.step(&alive), RouteStep::Wait(3)));
    assert!(matches!(route.step(&vec![false; 4]), RouteStep::Discard));
}

#[test]
fn request_is_discarded_where_no_shard_lives() {
    let mut route = Dispatcher::new().begin(2);
    assert!(matches!(route.step(&vec![false, false]), RouteStep::Discard));
}

#[test]
fn output_is_shown_once() {
    let mut mark = StreamMark::new(0);
    assert_eq!(mark.fresh(&b"ab".to_vec()), b"ab".to_vec());
    assert_eq!(mark.fresh(&b"ab".to_vec()), b"".to_vec());
    assert_eq!(mark.fresh(&b"abcd".to_vec()), b"cd".to_vec());
    let mut later = StreamMark::new(3);
    assert_eq!(later.fresh(&b"abcd".to_vec()), b"d".to_vec());
}

#[test]
fn turn_looks_at_every_source() {
    assert!(Turn::begin(true, true).is_none());
    let mut turn = Turn::begin(false, true).unwrap();
    let mut seen = vec![turn.source];
    let idle = loop {
        match turn.looked_at(false) {
            LoopStep::Look(next) => {
                turn = next;
                seen.push(turn.source);
            }
            LoopStep::Over(idle) => break idle,
        }
    };
    assert!(idle);
    assert_eq!(
        seen,
        vec![
            Source::Http,
            Source::Timer,
            Source::Worker,
            Source::Net,
            Source::HttpResponse,
            Source::Tls,
            Source::Dgram,
        ]
    );
    assert_eq!(next_source(Source::Dgram), None);
}

#[test]
fn busy_source_gets_a_batch_and_no_more() {
    let mut turn = Turn::begin(false, true).unwrap();
    let mut looks = 0u32;
    while turn.source == Source::Http {
        looks += 1;
        match turn.looked_at(true) {
            LoopStep::Look(next) => turn = next,
            LoopStep::Over(_) => panic!("there are other sources"),
        }
    }
    assert_eq!(looks, batch(Source::Http));
    assert!(turn.did_work);
}

#[test]
fn idle_shard_sleeps_until_the_next_timer() {
    assert_eq!(idle_nanos(None, 0), 5_000_000);
    assert_eq!(idle_nanos(Some(1_000), 400), 600);
    assert_eq!(idle_nanos(Some(1_000), 2_000), 0);
    assert_eq!(idle_nanos(Some(1_000_000_000), 0), 5_000_000);
}

#[test]
fn failed_dispatch_answers_its_request() {
    assert_eq!(after_dispatch(&DispatchOutcome::Done, Some(4)), AfterDispatch::Carry);
    assert_eq!(
        after_dispatch(&DispatchOutcome::Failed(AfterburnerError::ProcessExit(7)), Some(4)),
        AfterDispatch::Exit(7)
    );
    assert_eq!(
        after_dispatch(&DispatchOutcome::Failed(AfterburnerError::Timeout), Some(4)),
        AfterDispatch::Report(Some(4))
    );
    assert_eq!(after_dispatch(&DispatchOutcome::Panicked, None), AfterDispatch::Report(None));
}

#[test]
fn cancelled_reply_is_an_error_and_comes_once() {
    let mut http = DaemonHttp::with_runtime();
    let id = http.register_pending();
    let reply = cancel_pending_reply(&mut http, id).unwrap();
    assert_eq!(reply.status, 500);
    assert!(cancel_pending_reply(&mut http, id).is_none());
}
