use krustlet::pod::{ContainerSpec, PodKey, PodSnapshot};
use krustlet::queue::{PodChannel, PodEvent, Queue, CHANNEL_BOUND};
use krustlet::runner::{Notifier, PodRunner, RunnerPhase};
use krustlet::shutdown::{exit_code, on_supervised_task_exit, ShutdownFlag, SupervisedTask};
use krustlet::status::{make_status, Phase, StatusPublisher};
use krustlet::watch::{classify_event, WatchAction, WatchEvent};

fn snap(ns: &str, name: &str) -> PodSnapshot {
    PodSnapshot {
        key: PodKey::new(ns, name),
        containers: vec![ContainerSpec {
            name: "main".to_string(),
            image: Some("oci://pkg/foo:1.0".to_string()),
        }],
    }
}

fn keys_of(q: &Queue) -> Vec<(String, String)> {
    q.entries
        .iter()
        .map(|e| (e.key.namespace.clone(), e.key.name.clone()))
        .collect()
}

#[test]
fn one_runner_per_pod_key() {
    // However many updates arrive for one pod, a single runner owns it.
    let mut q = Queue::new();
    q.enqueue_applied(snap("default", "a"));
    q.enqueue_applied(snap("default", "a"));
    q.enqueue_applied(snap("default", "a"));
    assert_eq!(q.entries.len(), 1);
    assert_eq!(q.entries[0].channel.buf.len(), 3);
    q.enqueue_applied(snap("default", "b"));
    assert_eq!(q.entries.len(), 2);
    let keys = keys_of(&q);
    assert_eq!(keys[0], ("default".to_string(), "a".to_string()));
    assert_eq!(keys[1], ("default".to_string(), "b".to_string()));
}

#[test]
fn resync_reconciliation() {
    // With {a, c} live, replaying [a, b] leaves a untouched, hands c a
    // synthesized deletion, and starts b.
    let mut q = Queue::new();
    q.enqueue_applied(snap("default", "a"));
    q.enqueue_applied(snap("default", "c"));
    let a_runner = q.entries[0].runner_id;
    let a_buf_len = q.entries[0].channel.buf.len();

    q.resync(vec![snap("default", "a"), snap("default", "b")]);

    assert_eq!(q.entries.len(), 3);
    // a: uninterrupted, same incarnation, channel untouched
    assert_eq!(q.entries[0].key.name, "a");
    assert_eq!(q.entries[0].runner_id, a_runner);
    assert_eq!(q.entries[0].channel.buf.len(), a_buf_len);
    assert!(matches!(q.entries[0].channel.buf[0], PodEvent::Applied(_)));
    // c: observes termination
    assert_eq!(q.entries[1].key.name, "c");
    assert_eq!(q.entries[1].channel.buf.len(), 1);
    match &q.entries[1].channel.buf[0] {
        PodEvent::Deleted(k) => assert_eq!(k.name, "c"),
        _ => panic!("the vanished pod's runner must observe a deletion"),
    }
    // b: a fresh runner with the replayed snapshot
    assert_eq!(q.entries[2].key.name, "b");
    match &q.entries[2].channel.buf[0] {
        PodEvent::Applied(p) => assert_eq!(p.key.name, "b"),
        _ => panic!("the new pod's runner starts from its snapshot"),
    }
}

#[test]
fn watch_restart_scenario() {
    // {a} live; Restarted([b]): a terminates, b starts.
    let mut q = Queue::new();
    q.enqueue_applied(snap("default", "a"));
    q.resync(vec![snap("default", "b")]);
    assert_eq!(q.entries.len(), 2);
    assert!(matches!(q.entries[0].channel.buf[0], PodEvent::Deleted(_)));
    assert!(matches!(q.entries[1].channel.buf[0], PodEvent::Applied(_)));

    // a's runner drains its channel, reaches its terminal state, and
    // removes its own slot; b's slot stays.
    let a_key = PodKey::new("default", "a");
    let a_id = q.entries[0].runner_id;
    q.runner_completed(&a_key, a_id);
    assert_eq!(q.entries.len(), 1);
    assert_eq!(q.entries[0].key.name, "b");
}

#[test]
fn compare_and_remove_spares_racing_recreation() {
    let mut q = Queue::new();
    q.enqueue_applied(snap("default", "a"));
    let stale_id = q.entries[0].runner_id;
    // the pod vanishes and is re-added: same key, new incarnation
    q.resync(vec![]);
    let a_key = PodKey::new("default", "a");
    q.runner_completed(&a_key, stale_id);
    assert_eq!(q.entries.len(), 0);
    q.enqueue_applied(snap("default", "a"));
    let new_id = q.entries[0].runner_id;
    assert_ne!(new_id, stale_id);
    // the stale incarnation's removal does nothing now
    q.runner_completed(&a_key, stale_id);
    assert_eq!(q.entries.len(), 1);
}

#[test]
fn deletion_preempts_buffered_updates() {
    let mut ch = PodChannel::new();
    ch.push_event(PodEvent::Applied(snap("default", "a")));
    ch.push_event(PodEvent::Applied(snap("default", "a")));
    ch.push_event(PodEvent::Deleted(PodKey::new("default", "a")));
    assert_eq!(ch.buf.len(), 1);
    assert!(matches!(ch.buf[0], PodEvent::Deleted(_)));
    // later updates queue behind the pending deletion
    ch.push_event(PodEvent::Applied(snap("default", "a")));
    assert_eq!(ch.buf.len(), 2);
}

#[test]
fn overflow_drops_oldest_update_never_a_deletion() {
    let mut ch = PodChannel::new();
    ch.push_event(PodEvent::Deleted(PodKey::new("default", "a")));
    for _ in 0..CHANNEL_BOUND - 1 {
        ch.push_event(PodEvent::Applied(snap("default", "a")));
    }
    assert_eq!(ch.buf.len(), CHANNEL_BOUND);
    ch.push_event(PodEvent::Applied(snap("default", "a")));
    assert_eq!(ch.buf.len(), CHANNEL_BOUND);
    assert!(matches!(ch.buf[0], PodEvent::Deleted(_)));
    let taken = ch.pop_event().unwrap();
    assert!(matches!(taken, PodEvent::Deleted(_)));
}

#[test]
fn watch_events_filtered_during_shutdown() {
    let applied = WatchEvent::Applied(snap("default", "a"));
    let deleted = WatchEvent::Deleted(snap("default", "a"));
    let restarted = WatchEvent::Restarted(vec![snap("default", "a")]);
    assert_eq!(classify_event(&applied, false), WatchAction::Route);
    assert_eq!(classify_event(&applied, true), WatchAction::Drop);
    assert_eq!(classify_event(&deleted, false), WatchAction::Route);
    assert_eq!(classify_event(&deleted, true), WatchAction::Route);
    assert_eq!(classify_event(&restarted, false), WatchAction::Resync);
    assert_eq!(classify_event(&restarted, true), WatchAction::Resync);
}

#[test]
fn shutdown_is_idempotent_and_monotonic() {
    let mut flag = ShutdownFlag::new();
    assert!(!flag.is_set());
    flag.set();
    assert!(flag.is_set());
    flag.set();
    flag.set();
    assert!(flag.is_set());
}

#[test]
fn any_supervised_task_exit_sets_the_flag() {
    for (task, failed) in [
        (SupervisedTask::SignalListener, false),
        (SupervisedTask::Webserver, true),
        (SupervisedTask::NodeUpdater, true),
        (SupervisedTask::PluginRegistrar, false),
    ] {
        let mut flag = ShutdownFlag::new();
        on_supervised_task_exit(&mut flag, task, failed);
        assert!(flag.is_set());
    }
}

#[test]
fn exit_codes() {
    assert_eq!(exit_code(false, false), 1);
    assert_eq!(exit_code(true, true), 0);
    assert_eq!(exit_code(true, false), 2);
}

#[test]
fn notifier_coalesces_and_drains() {
    let mut n = Notifier::new();
    assert!(!n.pending);
    n.signal();
    n.signal();
    assert!(n.pending);
    assert!(n.drain());
    assert!(!n.drain());
}

#[test]
fn async_drop_runs_exactly_once() {
    let mut r = PodRunner::new();
    r.start(true);
    assert_eq!(r.phase, RunnerPhase::Active);
    r.on_event(PodEvent::Applied(snap("default", "a")));
    assert!(r.notifier.pending);
    r.on_event(PodEvent::Deleted(PodKey::new("default", "a")));
    assert!(r.termination_requested);
    assert_eq!(r.drop_hook_runs, 0);
    r.complete();
    assert_eq!(r.phase, RunnerPhase::Completed);
    assert_eq!(r.drop_hook_runs, 1);
}

#[test]
fn failed_initialization_runs_no_drop_hook() {
    let mut r = PodRunner::new();
    r.start(false);
    assert_eq!(r.phase, RunnerPhase::Completed);
    assert_eq!(r.drop_hook_runs, 0);
}

#[test]
fn shutdown_observation_requests_termination() {
    let mut r = PodRunner::new();
    r.start(true);
    r.observe_shutdown(false);
    assert!(!r.termination_requested);
    r.observe_shutdown(true);
    assert!(r.termination_requested);
    assert!(r.notifier.pending);
}

#[test]
fn status_timestamps_increase() {
    let mut p = StatusPublisher::new();
    p.publish(&make_status(Phase::Pending, "status:initializing"));
    p.publish(&make_status(Phase::Running, "status:running"));
    p.publish(&make_status(Phase::Succeeded, "Completed"));
    assert_eq!(p.published.len(), 3);
    for w in p.published.windows(2) {
        assert!(w[0].ts < w[1].ts);
    }
    assert_eq!(p.published[0].ts, 0);
    assert_eq!(p.published[2].phase, Phase::Succeeded);
}

#[test]
fn status_publish_is_gated() {
    let mut r = PodRunner::new();
    r.start(true);
    r.maybe_publish(&make_status(Phase::Pending, "status:initializing"), true, false);
    r.maybe_publish(&make_status(Phase::Pending, "status:initializing"), false, false);
    r.maybe_publish(&make_status(Phase::Running, "status:running"), false, true);
    assert_eq!(r.publisher.published.len(), 2);
}
