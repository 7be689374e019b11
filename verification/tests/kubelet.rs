use krustlet::envvars::{env_vars, EnvVarSpec, PodFields};

fn literal(name: &str, value: &str) -> EnvVarSpec {
    EnvVarSpec { name: name.to_string(), value: Some(value.to_string()), field_path: None }
}

fn from_field(name: &str, path: &str) -> EnvVarSpec {
    EnvVarSpec { name: name.to_string(), value: None, field_path: Some(path.to_string()) }
}

fn get<'a>(env: &'a [(String, String)], name: &str) -> Option<&'a str> {
    env.iter().find(|(k, _)| k == name).map(|(_, v)| v.as_str())
}

#[test]
fn test_env_vars() {
    let container_env = vec![
        literal("first", "value"),
        from_field("second", "metadata.labels.label"),
        from_field("third", "metadata.annotations.annotation"),
        from_field("NAME", "metadata.name"),
        from_field("NAMESPACE", "metadata.namespace"),
        from_field("HOST_IP", "status.hostIP"),
        from_field("POD_IP", "status.podIP"),
    ];
    let fields = PodFields {
        name: "my-name".to_string(),
        namespace: "my-namespace".to_string(),
        labels: vec![("label".to_string(), "value".to_string())],
        annotations: vec![("annotation".to_string(), "value".to_string())],
        host_ip: Some("10.21.77.1".to_string()),
        pod_ip: Some("10.21.77.2".to_string()),
    };
    let env = env_vars(&container_env, &fields);

    assert_eq!("value", get(&env, "first").expect("key first should exist"));
    assert_eq!("value", get(&env, "second").expect("metadata.labels.label"));
    assert_eq!("value", get(&env, "third").expect("metadata.annotations.annotation"));
    assert_eq!("my-name", get(&env, "NAME").expect("metadata.name"));
    assert_eq!("my-namespace", get(&env, "NAMESPACE").expect("metadata.namespace"));
    assert_eq!("10.21.77.2", get(&env, "POD_IP").expect("pod_ip"));
    assert_eq!("10.21.77.1", get(&env, "HOST_IP").expect("host_ip"));
}

#[test]
fn unknown_field_paths_resolve_empty() {
    let container_env = vec![
        from_field("A", "spec.nodeName"),
        from_field("B", "metadata.labels.absent"),
        EnvVarSpec { name: "C".to_string(), value: None, field_path: None },
    ];
    let fields = PodFields {
        name: "n".to_string(),
        namespace: "ns".to_string(),
        labels: vec![],
        annotations: vec![],
        host_ip: None,
        pod_ip: None,
    };
    let env = env_vars(&container_env, &fields);
    assert_eq!("", get(&env, "A").unwrap());
    assert_eq!("", get(&env, "B").unwrap());
    assert_eq!("", get(&env, "C").unwrap());
}

#[test]
fn literal_value_wins_over_field_path() {
    let container_env = vec![EnvVarSpec {
        name: "X".to_string(),
        value: Some("literal".to_string()),
        field_path: Some("metadata.name".to_string()),
    }];
    let fields = PodFields {
        name: "n".to_string(),
        namespace: "ns".to_string(),
        labels: vec![],
        annotations: vec![],
        host_ip: None,
        pod_ip: None,
    };
    let env = env_vars(&container_env, &fields);
    assert_eq!("literal", get(&env, "X").unwrap());
}
