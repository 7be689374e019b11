use krustlet::configmaps::{apply_config_map_plan, config_dir_for_mount, config_mount_pairs};
use krustlet::error::StackableError;
use krustlet::node::{
    build_node, default_interface_index, drain_patch, renewal_due, InterfaceSummary, NodeBuilder,
};
use krustlet::package::{Package, StackablePackage};
use krustlet::pod::{MountSpec, VolumeSpec};
use krustlet::provider::{missing_crds, required_crds, StackableProvider};
use krustlet::wascc::{
    capability_plan, decimal_string, ports_to_release, stop_plan, VolumeBinding,
};

#[test]
fn image_reference_parses_product_and_version() {
    let p = Package::from_image_string("oci://pkg/foo:1.0").expect("well-formed");
    assert_eq!(p.product, "pkg/foo");
    assert_eq!(p.version, "1.0");
    let p = Package::from_image_string("pkg/foo:999").expect("the scheme prefix is optional");
    assert_eq!(p.product, "pkg/foo");
    assert_eq!(p.version, "999");
}

#[test]
fn image_reference_splits_at_last_colon() {
    let p = Package::from_image_string("registry:5000/foo:2.1").expect("well-formed");
    assert_eq!(p.product, "registry:5000/foo");
    assert_eq!(p.version, "2.1");
}

#[test]
fn image_reference_errors() {
    match Package::from_image_string("oci://pkg/foo") {
        Err(StackableError::PackageParseError { msg }) => {
            assert_eq!(msg, "No version found in package reference")
        },
        _ => panic!("a reference without a version is rejected"),
    }
    match Package::from_image_string(":1.0") {
        Err(StackableError::PackageParseError { msg }) => {
            assert_eq!(msg, "Empty product in package reference")
        },
        _ => panic!("an empty product is rejected"),
    }
    match Package::from_image_string("foo:") {
        Err(StackableError::PackageParseError { msg }) => {
            assert_eq!(msg, "Empty version in package reference")
        },
        _ => panic!("an empty version is rejected"),
    }
}

#[test]
fn package_file_and_directory_names() {
    let sp = StackablePackage {
        product: "kafka".to_string(),
        version: "2.6.0".to_string(),
        link: String::new(),
        hashes: vec![],
    };
    assert_eq!(sp.get_directory_name(), "kafka-2.6.0");
    assert_eq!(sp.get_file_name(), "kafka-2.6.0.tar.gz");
}

#[test]
fn provider_requires_all_crds() {
    let crds = required_crds();
    assert_eq!(crds, vec!["repositories.stable.stackable.de".to_string()]);

    let missing = missing_crds(&vec![("repositories.stable.stackable.de".to_string(), true)]);
    assert!(missing.is_empty());
    let provider = StackableProvider::new(
        "/d".to_string(),
        "/p".to_string(),
        "/c".to_string(),
        missing,
    );
    assert!(provider.is_ok());

    let missing = missing_crds(&vec![("repositories.stable.stackable.de".to_string(), false)]);
    assert_eq!(missing, vec!["repositories.stable.stackable.de".to_string()]);
    match StackableProvider::new("/d".to_string(), "/p".to_string(), "/c".to_string(), missing) {
        Err(StackableError::CrdMissing { missing_crds }) => {
            assert_eq!(missing_crds, vec!["repositories.stable.stackable.de".to_string()])
        },
        _ => panic!("a provider without its custom resources must not start"),
    }
}

#[test]
fn pod_state_starts_fresh() {
    let provider = StackableProvider::new(
        "/work/downloads".to_string(),
        "/work/parcels".to_string(),
        "/work/config".to_string(),
        vec![],
    )
    .unwrap();
    let ps = provider.initialize_pod_state();
    assert_eq!(ps.parcel_directory, "/work/parcels");
    assert!(ps.package.is_none());
    assert_eq!(ps.package_download_backoff_strategy.attempts, 0);
}

#[test]
fn node_carries_arch_labels_and_taints() {
    let provider = StackableProvider::new(
        "/d".to_string(),
        "/p".to_string(),
        "/c".to_string(),
        vec![],
    )
    .unwrap();
    let mut builder = NodeBuilder::new();
    provider.node(&mut builder);
    assert_eq!(builder.architecture, "stackable-linux");
    assert_eq!(builder.taints.len(), 2);
    assert_eq!(builder.taints[0].effect, "NoSchedule");
    assert_eq!(builder.taints[0].key, "kubernetes.io/arch");
    assert_eq!(builder.taints[0].value, "stackable-linux");
    assert_eq!(builder.taints[1].effect, "NoExecute");

    let node = build_node("node-1", 110, builder);
    assert_eq!(node.name, "node-1");
    assert_eq!(node.labels[0].0, "beta.kubernetes.io/arch");
    assert_eq!(node.labels[0].1, "stackable-linux");
    assert_eq!(node.labels[1].0, "kubernetes.io/role");
    assert_eq!(node.labels[1].1, "agent");
    assert_eq!(node.capacity_pods, 110);
    assert!(node.ready);
    assert!(!node.unschedulable);
}

#[test]
fn drain_marks_node_unschedulable_and_not_ready() {
    let mut node = build_node("node-1", 110, NodeBuilder::new());
    drain_patch(&mut node);
    assert!(node.unschedulable);
    assert!(!node.ready);
    assert_eq!(node.ready_reason, "NodeShutdown");
}

#[test]
fn renewal_cadence_is_ten_seconds() {
    assert!(!renewal_due(9999));
    assert!(renewal_due(10000));
    assert!(renewal_due(60000));
}

#[test]
fn default_interface_skips_loopback_and_down() {
    let interfaces = vec![
        InterfaceSummary { up: true, loopback: true, address_count: 1 },
        InterfaceSummary { up: false, loopback: false, address_count: 1 },
        InterfaceSummary { up: true, loopback: false, address_count: 0 },
        InterfaceSummary { up: true, loopback: false, address_count: 2 },
    ];
    assert_eq!(default_interface_index(&interfaces), Some(3));
    assert_eq!(default_interface_index(&vec![]), None);
}

#[test]
fn decimal_rendering() {
    assert_eq!(decimal_string(0), "0");
    assert_eq!(decimal_string(7), "7");
    assert_eq!(decimal_string(30000), "30000");
    assert_eq!(decimal_string(65535), "65535");
    assert_eq!(decimal_string(u64::MAX), "18446744073709551615");
}

#[test]
fn capability_plan_covers_declared_capabilities() {
    let caps = vec![
        "wascc:logging".to_string(),
        "wascc:http_server".to_string(),
        "wascc:blobstore".to_string(),
    ];
    let env = vec![("NAME".to_string(), "p1".to_string())];
    let volumes = vec![
        VolumeBinding { name: "v1".to_string(), host_path: "/data/v1".to_string() },
        VolumeBinding { name: "v2".to_string(), host_path: "/data/v2".to_string() },
    ];
    let plan = capability_plan(&caps, &env, &volumes, "/logs/p1.log", "LOG_PATH", 30000);
    assert_eq!(plan.len(), 4);
    assert_eq!(plan[0].name, "wascc:logging");
    assert!(plan[0].binding.is_none());
    assert_eq!(plan[0].env.last().unwrap(), &("LOG_PATH".to_string(), "/logs/p1.log".to_string()));
    assert_eq!(plan[1].name, "wascc:http_server");
    assert_eq!(plan[1].env.last().unwrap(), &("PORT".to_string(), "30000".to_string()));
    assert_eq!(plan[1].env[0], ("NAME".to_string(), "p1".to_string()));
    assert_eq!(plan[2].name, "wascc:blobstore");
    assert_eq!(plan[2].binding.as_deref(), Some("v1"));
    assert_eq!(plan[2].env.last().unwrap(), &("ROOT".to_string(), "/data/v1".to_string()));
    assert_eq!(plan[3].binding.as_deref(), Some("v2"));
}

#[test]
fn capability_plan_skips_undeclared_capabilities() {
    let caps = vec!["wascc:http_server".to_string()];
    let env = vec![];
    let volumes = vec![VolumeBinding { name: "v1".to_string(), host_path: "/d".to_string() }];
    let plan = capability_plan(&caps, &env, &volumes, "/logs/x", "LOG_PATH", 80);
    assert_eq!(plan.len(), 1);
    assert_eq!(plan[0].name, "wascc:http_server");
}

#[test]
fn stop_plan_removes_fs_bindings_only_when_held() {
    let volumes = vec![
        VolumeBinding { name: "v1".to_string(), host_path: "/d1".to_string() },
        VolumeBinding { name: "v2".to_string(), host_path: "/d2".to_string() },
    ];
    let plan = stop_plan("MODKEY", &volumes, &vec!["wascc:blobstore".to_string()]);
    assert_eq!(plan.actor_key, "MODKEY");
    assert_eq!(plan.remove_fs_bindings, vec!["v1".to_string(), "v2".to_string()]);
    let plan = stop_plan("MODKEY", &volumes, &vec!["wascc:logging".to_string()]);
    assert!(plan.remove_fs_bindings.is_empty());
}

#[test]
fn finished_pod_releases_its_ports() {
    let a = krustlet::pod::PodKey::new("default", "a");
    let b = krustlet::pod::PodKey::new("default", "b");
    let map = vec![
        (30000u16, krustlet::pod::PodKey::new("default", "a")),
        (30001u16, krustlet::pod::PodKey::new("default", "b")),
        (30002u16, krustlet::pod::PodKey::new("default", "a")),
    ];
    assert_eq!(ports_to_release(&map, &a), vec![30000, 30002]);
    assert_eq!(ports_to_release(&map, &b), vec![30001]);
}

#[test]
fn config_mount_pairs_match_names() {
    let mounts = vec![
        MountSpec { name: "conf".to_string(), mount_path: "/etc/app".to_string() },
        MountSpec { name: "data".to_string(), mount_path: "/var/data".to_string() },
    ];
    let volumes = vec![
        VolumeSpec { name: "conf".to_string(), config_map: Some("app-config".to_string()) },
        VolumeSpec { name: "data".to_string(), config_map: None },
        VolumeSpec { name: "conf".to_string(), config_map: Some("extra-config".to_string()) },
    ];
    let pairs = config_mount_pairs(&mounts, &volumes);
    assert_eq!(pairs, vec![(0, 0), (0, 2)]);
}

#[test]
fn config_files_land_under_the_mount_directory() {
    let dir = config_dir_for_mount("/work/config/kafka-2.6.0", "/etc/app");
    assert_eq!(dir, "/work/config/kafka-2.6.0/etc/app");
    let data = vec![
        ("server.properties".to_string(), "port=9092".to_string()),
        ("log4j.properties".to_string(), "level=info".to_string()),
    ];
    let writes = apply_config_map_plan(&data, &dir);
    assert_eq!(writes.len(), 2);
    assert_eq!(writes[0].path, "/work/config/kafka-2.6.0/etc/app/server.properties");
    assert_eq!(writes[0].content, "port=9092");
    assert_eq!(writes[1].path, "/work/config/kafka-2.6.0/etc/app/log4j.properties");
}

#[test]
fn error_messages_render() {
    let e = StackableError::PodValidationError {
        msg: "Size of containers list in PodSpec has to be exactly 1".to_string(),
    };
    assert_eq!(e.message(), "Size of containers list in PodSpec has to be exactly 1");
    let e = StackableError::UrlParseError { url: "::".to_string() };
    assert_eq!(e.message(), "Unable to parse url: ::");
}
