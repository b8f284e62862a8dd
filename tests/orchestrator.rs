use target_provider::descriptor::Workload;
use target_provider::orchestrator::{
    apply_outcome, failure_response, success_response, Action, DeployError, Deployment,
    DeploymentRequest, DeploymentResponse, Orchestration, Target, TargetMetadata, TargetSelector,
    TargetSpec,
};

fn request(labels: &[(&str, &str)]) -> DeploymentRequest {
    DeploymentRequest {
        target: Target {
            api_version: "v1".to_string(),
            kind: "Target".to_string(),
            metadata: TargetMetadata { name: "t".to_string(), namespace: "default".to_string() },
            spec: TargetSpec {
                target_type: "ankaios".to_string(),
                target_selector: TargetSelector {
                    match_labels: labels.iter().map(|(k, v)| (k.to_string(), v.to_string())).collect(),
                },
                deployment: Deployment {
                    workload: Workload {
                        name: "ecu-app".to_string(),
                        image: "registry/app:1.0".to_string(),
                        version: "1.0".to_string(),
                        env: vec![],
                    },
                },
            },
        },
        action: "deploy".to_string(),
    }
}

/// Runs a request; `fail` gives the diagnostic of the agent whose apply fails.
fn run(req: &DeploymentRequest, fail: Option<(&str, &str)>) -> (DeploymentResponse, Vec<String>) {
    let mut o = Orchestration::new(req);
    let mut attempted = Vec::new();
    loop {
        match o.next_action() {
            Action::Apply { agent, path, document } => {
                assert!(path.contains(&agent));
                assert!(!document.is_empty());
                attempted.push(agent.clone());
                let outcome = match fail {
                    Some((a, diag)) if a == agent => apply_outcome(false, &diag.as_bytes().to_vec()),
                    _ => apply_outcome(true, &vec![]),
                };
                o.record(outcome);
            }
            Action::Finish(r) => return (r, attempted),
        }
    }
}

#[test]
fn two_agents_succeed() {
    let (r, attempted) = run(&request(&[("ankaios.io/agent", "agentA,agentB")]), None);
    assert!(r.success);
    assert_eq!(r.target_agents, vec!["agentA", "agentB"]);
    assert!(r.deployment_id.starts_with("deployment-"));
    assert!(r.deployment_id.len() > "deployment-".len());
    assert_eq!(r.message, "Successfully deployed ecu-app to 2 agents");
    assert_eq!(attempted, vec!["agentA", "agentB"]);
}

#[test]
fn first_failure_stops_the_fan_out() {
    let req = request(&[("ankaios.io/agent", "agentA,agentB")]);
    let (r, attempted) = run(&req, Some(("agentA", "connection refused")));
    assert!(!r.success);
    assert!(r.target_agents.is_empty());
    assert_eq!(r.deployment_id, "");
    assert!(r.message.contains("connection refused"));
    assert_eq!(attempted, vec!["agentA"]);
}

#[test]
fn failure_after_a_success_reports_failure() {
    let req = request(&[("ankaios.io/agent", "a,b,c")]);
    let (r, attempted) = run(&req, Some(("b", "boom")));
    assert!(!r.success);
    assert_eq!(r.message, "Deployment failed: Failed to apply Ankaios state: boom");
    assert_eq!(attempted, vec!["a", "b"]);
}

#[test]
fn no_agent_key_succeeds_with_no_agents() {
    let (r, attempted) = run(&request(&[("app", "x")]), None);
    assert!(r.success);
    assert!(r.target_agents.is_empty());
    assert!(attempted.is_empty());
    assert_eq!(r.message, "Successfully deployed ecu-app to 0 agents");
}

#[test]
fn apply_outcome_carries_diagnostic() {
    assert!(apply_outcome(true, &b"warning".to_vec()).is_ok());
    match apply_outcome(false, &b"bad \xff input".to_vec()) {
        Err(DeployError::ApplyFailure(d)) => assert_eq!(d, "bad \u{fffd} input"),
        _ => panic!("expected an apply failure"),
    }
}

#[test]
fn write_failure_response() {
    let e = DeployError::DescriptorWriteFailure("disk full".to_string());
    assert_eq!(e.describe(), "disk full");
    let r = failure_response(&e);
    assert!(!r.success);
    assert_eq!(r.message, "Deployment failed: disk full");
    assert_eq!(r.deployment_id, "");
    assert!(r.target_agents.is_empty());
}

#[test]
fn success_response_formats_id_and_count() {
    let r = success_response("w", vec!["x".to_string()], 1700000000);
    assert_eq!(r.deployment_id, "deployment-1700000000");
    assert_eq!(r.message, "Successfully deployed w to 1 agents");
    let r = success_response("w", vec![], -5);
    assert_eq!(r.deployment_id, "deployment--5");
}
