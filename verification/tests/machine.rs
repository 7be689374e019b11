use krustlet::backoff::ExponentialBackoffStrategy;
use krustlet::machine::{redirect_on_termination, succ, Transition, TransitionStep};
use krustlet::pod::{ContainerSpec, PodKey, PodSnapshot};
use krustlet::provider::{PodState, StackableProvider};
use krustlet::states::{
    CreatingConfig, Downloading, Failed, ProcessObservation, RepoLookupOutcome, Running,
    StackableState, StateKind, Stopped, Terminated,
};
use krustlet::status::{terminal_status, Phase};

fn pod_with_image(image: &str) -> PodSnapshot {
    PodSnapshot {
        key: PodKey::new("default", "p1"),
        containers: vec![ContainerSpec { name: "main".to_string(), image: Some(image.to_string()) }],
    }
}

fn fresh_pod_state() -> PodState {
    let provider = StackableProvider::new(
        "/work/downloads".to_string(),
        "/work/parcels".to_string(),
        "/work/config".to_string(),
        vec![],
    )
    .expect("no missing crds");
    provider.initialize_pod_state()
}

fn next_kind(t: Transition) -> StateKind {
    match t.into_step() {
        TransitionStep::Next(s) => s.kind(),
        TransitionStep::Complete(r) => panic!("expected a next state, got completion {:?}", r.is_ok()),
    }
}

#[test]
fn happy_path_state_sequence() {
    // A single pod with one container image runs download, install,
    // configure and run to successful completion.
    let pod = pod_with_image("oci://pkg/foo:1.0");
    let mut ps = fresh_pod_state();

    let t = Downloading.next(&mut ps, &pod, RepoLookupOutcome::Found { repo_name: "r1".to_string() });
    let installing = match t.into_step() {
        TransitionStep::Next(StackableState::Installing(i)) => i,
        _ => panic!("expected installing"),
    };
    assert_eq!(installing.package.product, "pkg/foo");
    assert_eq!(installing.package.version, "1.0");
    assert_eq!(installing.download_directory, "/work/downloads");
    assert_eq!(installing.parcel_directory, "/work/parcels");

    let t = installing.next(false, Ok(()));
    let configuring = match t.into_step() {
        TransitionStep::Next(StackableState::CreatingConfig(c)) => c,
        _ => panic!("expected configuring"),
    };

    let (target, t) = configuring.next(&ps, &pod);
    assert_eq!(target.unwrap(), "/work/config/pkg/foo-1.0");
    let running = match t.into_step() {
        TransitionStep::Next(StackableState::Running(r)) => r,
        _ => panic!("expected running"),
    };

    let t = running.next(&ps, ProcessObservation::Exited { success: true });
    let result = match t.into_step() {
        TransitionStep::Complete(r) => r,
        _ => panic!("expected completion"),
    };
    assert!(result.is_ok());
    let status = terminal_status(&result);
    assert_eq!(status.phase, Phase::Succeeded);
}

#[test]
fn missing_package_backs_off_without_installing() {
    // The same pod at an unprovided version keeps retrying the download
    // with exponentially growing waits, and never reaches install.
    let pod = pod_with_image("oci://pkg/foo:999");
    let mut ps = fresh_pod_state();

    let t = Downloading.next(&mut ps, &pod, RepoLookupOutcome::NotFound);
    let backoff = match t.into_step() {
        TransitionStep::Next(StackableState::DownloadingBackoff(b)) => b,
        _ => panic!("expected backoff, not install"),
    };
    assert_eq!(backoff.package.version, "999");

    let status = StackableState::DownloadingBackoff(backoff).status();
    assert_eq!(status.conditions.len(), 1);
    assert_eq!(status.conditions[0].reason, "ImagePullBackOff");

    let b = krustlet::states::DownloadingBackoff { package: krustlet::package::Package {
        product: "pkg/foo".to_string(),
        version: "999".to_string(),
    }};
    let (delay1, t) = b.next(&mut ps);
    assert_eq!(delay1, 1000);
    assert_eq!(next_kind(t), StateKind::Downloading);
    let b = krustlet::states::DownloadingBackoff { package: krustlet::package::Package {
        product: "pkg/foo".to_string(),
        version: "999".to_string(),
    }};
    let (delay2, _) = b.next(&mut ps);
    assert_eq!(delay2, 2000);
    let b = krustlet::states::DownloadingBackoff { package: krustlet::package::Package {
        product: "pkg/foo".to_string(),
        version: "999".to_string(),
    }};
    let (delay3, _) = b.next(&mut ps);
    assert_eq!(delay3, 4000);
}

#[test]
fn lookup_error_also_backs_off() {
    let pod = pod_with_image("oci://pkg/foo:1.0");
    let mut ps = fresh_pod_state();
    let t = Downloading.next(
        &mut ps,
        &pod,
        RepoLookupOutcome::LookupError { msg: "boom".to_string() },
    );
    assert_eq!(next_kind(t), StateKind::DownloadingBackoff);
}

#[test]
fn illegal_image_fails_without_retry() {
    // A pod with zero containers fails with the exact validation
    // message, reports the failed phase, and the run ends.
    let pod = PodSnapshot { key: PodKey::new("default", "p1"), containers: vec![] };
    let mut ps = fresh_pod_state();

    let t = Downloading.next(&mut ps, &pod, RepoLookupOutcome::NotFound);
    let failed = match t.into_step() {
        TransitionStep::Next(StackableState::Failed(f)) => f,
        _ => panic!("expected failure"),
    };
    assert_eq!(failed.message, "Size of containers list in PodSpec has to be exactly 1");

    let status = StackableState::Failed(Failed { message: failed.message.clone() }).status();
    assert_eq!(status.phase, Phase::Failed);

    let t = failed.next();
    match t.into_step() {
        TransitionStep::Complete(Err(m)) => {
            assert_eq!(m, "Size of containers list in PodSpec has to be exactly 1")
        },
        _ => panic!("a failed pod's run ends with the recorded error"),
    }
}

#[test]
fn shutdown_redirects_running_pod_to_terminated() {
    // A running pod that sees termination pending is forced to the
    // terminated state, which completes cleanly with phase succeeded.
    let ps = {
        let mut ps = fresh_pod_state();
        ps.package = Some(krustlet::package::Package {
            product: "pkg/foo".to_string(),
            version: "1.0".to_string(),
        });
        ps
    };
    let t = Running.next(&ps, ProcessObservation::StillRunning);
    let t = redirect_on_termination(t, true);
    let terminated = match t.into_step() {
        TransitionStep::Next(StackableState::Terminated(t)) => t,
        _ => panic!("expected terminated"),
    };
    let status = StackableState::Terminated(Terminated { message: terminated.message.clone() })
        .status();
    assert_eq!(status.phase, Phase::Succeeded);
    match terminated.next().into_step() {
        TransitionStep::Complete(Ok(())) => {},
        _ => panic!("termination is not an error"),
    }
}

#[test]
fn redirect_without_termination_changes_nothing() {
    let ps = fresh_pod_state();
    let pod = pod_with_image("oci://pkg/foo:1.0");
    let (_, t) = CreatingConfig { target_directory: None }.next(
        &{
            let mut ps2 = fresh_pod_state();
            ps2.package = Some(krustlet::package::Package {
                product: "pkg/foo".to_string(),
                version: "1.0".to_string(),
            });
            ps2
        },
        &pod,
    );
    let t = redirect_on_termination(t, false);
    assert_eq!(next_kind(t), StateKind::Running);
    let _ = ps;
}

#[test]
fn pod_change_while_running_reinstalls() {
    let mut ps = fresh_pod_state();
    ps.package = Some(krustlet::package::Package {
        product: "pkg/foo".to_string(),
        version: "1.0".to_string(),
    });
    let t = Running.next(&ps, ProcessObservation::PodChanged);
    assert_eq!(next_kind(t), StateKind::Installing);
}

#[test]
fn dead_process_fails_the_pod() {
    let mut ps = fresh_pod_state();
    ps.package = Some(krustlet::package::Package {
        product: "pkg/foo".to_string(),
        version: "1.0".to_string(),
    });
    let t = Running.next(&ps, ProcessObservation::Exited { success: false });
    match t.into_step() {
        TransitionStep::Next(StackableState::Failed(f)) => assert_eq!(f.message, "process died"),
        _ => panic!("expected failure"),
    }
}

#[test]
fn declared_transition_graph() {
    // The graph admits exactly the declared successors; the terminated
    // state is reachable from everywhere and terminal states lead
    // nowhere else.
    assert!(succ(StateKind::Downloading, StateKind::Installing));
    assert!(succ(StateKind::Downloading, StateKind::DownloadingBackoff));
    assert!(succ(StateKind::Downloading, StateKind::Failed));
    assert!(succ(StateKind::DownloadingBackoff, StateKind::Downloading));
    assert!(succ(StateKind::Installing, StateKind::CreatingConfig));
    assert!(succ(StateKind::CreatingConfig, StateKind::Running));
    assert!(succ(StateKind::Running, StateKind::Running));
    assert!(succ(StateKind::Running, StateKind::Installing));
    assert!(succ(StateKind::Stopped, StateKind::Terminated));
    assert!(!succ(StateKind::Downloading, StateKind::Running));
    assert!(!succ(StateKind::DownloadingBackoff, StateKind::Installing));
    assert!(!succ(StateKind::Failed, StateKind::Installing));
    assert!(!succ(StateKind::Terminated, StateKind::Downloading));
    for k in [
        StateKind::Downloading,
        StateKind::DownloadingBackoff,
        StateKind::Installing,
        StateKind::CreatingConfig,
        StateKind::Running,
        StateKind::Stopped,
        StateKind::Failed,
        StateKind::Terminated,
    ] {
        assert!(succ(k, StateKind::Terminated));
    }
}

#[test]
fn installing_knows_the_target_directory() {
    let installing = krustlet::states::Installing {
        download_directory: "/work/downloads".to_string(),
        parcel_directory: "/work/parcels".to_string(),
        package: krustlet::package::Package {
            product: "kafka".to_string(),
            version: "2.6.0".to_string(),
        },
    };
    let target = installing.get_target_directory(&installing.package);
    assert_eq!(target, "/work/parcels/kafka-2.6.0");

    let present = vec!["zookeeper-3.6.2".to_string(), "kafka-2.6.0".to_string()];
    assert!(installing.package_installed(&installing.package, &present));
    let other = krustlet::package::Package {
        product: "kafka".to_string(),
        version: "2.7.0".to_string(),
    };
    assert!(!installing.package_installed(&other, &present));
}

#[test]
fn undeclared_edges_cannot_be_constructed() {
    // Building a transition is only possible along a declared edge.
    let t = Transition::checked_next(
        StateKind::Failed,
        StackableState::Installing(krustlet::states::Installing {
            download_directory: "/d".to_string(),
            parcel_directory: "/p".to_string(),
            package: krustlet::package::Package {
                product: "kafka".to_string(),
                version: "2.6.0".to_string(),
            },
        }),
    );
    assert!(t.is_none());
    let t = Transition::checked_next(
        StateKind::DownloadingBackoff,
        StackableState::Downloading(Downloading),
    );
    assert!(t.is_some());
}

#[test]
fn stopped_pod_completes() {
    match Stopped.next().into_step() {
        TransitionStep::Complete(Ok(())) => {},
        _ => panic!("a stopped workload has nothing left to do"),
    }
}

#[test]
fn backoff_delays_double_until_cap() {
    let mut b = ExponentialBackoffStrategy::new();
    let mut last = 0u64;
    for _ in 0..20 {
        let d = b.next_delay_ms();
        assert!(d >= last);
        assert!(d <= 300000);
        last = d;
    }
    assert_eq!(last, 300000);
}

#[test]
fn config_step_rejects_pod_without_package() {
    let pod = pod_with_image("oci://pkg/foo:1.0");
    let ps = fresh_pod_state();
    let (target, t) = CreatingConfig { target_directory: None }.next(&ps, &pod);
    assert!(target.is_none());
    match t.into_step() {
        TransitionStep::Next(StackableState::Failed(f)) => {
            assert_eq!(f.message, "No package has been resolved for this pod")
        },
        _ => panic!("expected failure"),
    }
}

#[test]
fn config_step_rejects_multiple_containers() {
    let mut pod = pod_with_image("oci://pkg/foo:1.0");
    pod.containers.push(ContainerSpec { name: "extra".to_string(), image: None });
    let ps = fresh_pod_state();
    let (_, t) = CreatingConfig { target_directory: None }.next(&ps, &pod);
    match t.into_step() {
        TransitionStep::Next(StackableState::Failed(f)) => assert_eq!(
            f.message,
            "Only pods containing exactly one container element are supported!"
        ),
        _ => panic!("expected failure"),
    }
}
