use target_provider::descriptor::{create_state, render_state, state_file_path, state_text, Workload};

fn workload() -> Workload {
    Workload {
        name: "ecu-app".to_string(),
        image: "registry/app:1.0".to_string(),
        version: "1.0".to_string(),
        env: vec![("K".to_string(), "V".to_string())],
    }
}

#[test]
fn descriptor_fields() {
    let d = create_state(&workload(), "agentA");
    assert_eq!(d.api_version, "v0.1");
    assert_eq!(d.instance_name, "ecu-app-agentA");
    assert_eq!(d.runtime, "podman");
    assert_eq!(d.agent, "agentA");
    assert_eq!(d.restart_policy, "ON_FAILURE");
    assert_eq!(
        d.runtime_config,
        "image: registry/app:1.0\n  commandOptions: [\"--name\",\"ecu-app-agentA\",\"--env\",\"ECU_TYPE=ecu-app\",\"--env\",\"ECU_VERSION=1.0\"]"
    );
}

#[test]
fn instance_key_is_workload_dash_agent() {
    let d = create_state(&workload(), "b");
    assert_eq!(d.instance_name, "ecu-app-b");
    let text = render_state(&d).unwrap();
    assert!(text.contains("ecu-app-b:"));
}

#[test]
fn generation_is_deterministic() {
    let a = state_text(&workload(), "agentA").unwrap();
    let b = state_text(&workload(), "agentA").unwrap();
    assert_eq!(a.as_bytes(), b.as_bytes());
}

#[test]
fn rendered_document_layout() {
    let text = state_text(&workload(), "agentA").unwrap();
    assert!(text.starts_with("apiVersion: v0.1\nworkloads:\n  ecu-app-agentA:\n    runtime: podman\n"));
    let runtime = text.find("runtime: podman").unwrap();
    let agent = text.find("agent: agentA").unwrap();
    let policy = text.find("restartPolicy: ON_FAILURE").unwrap();
    let config = text.find("runtimeConfig:").unwrap();
    assert!(runtime < agent && agent < policy && policy < config);
    assert!(text.contains("registry/app:1.0"));
    assert!(!text.contains("K"));
}

#[test]
fn state_file_names_workload_and_agent() {
    assert_eq!(state_file_path("ecu-app", "agentA"), "/tmp/ankaios-state-ecu-app-agentA.yaml");
}
