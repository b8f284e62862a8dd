//! The per-agent runtime state descriptor and its YAML document.
use vstd::prelude::*;
use crate::yaml::{yaml_emit, yaml_error_text, yaml_map, yaml_mapping, yaml_rendering, yaml_scalar, yaml_text};

verus! {

/// The deployable unit of a request.
pub struct Workload {
    pub name: String,
    pub image: String,
    pub version: String,
    /// Free-form environment of the workload; keys are unique.
    pub env: Vec<(String, String)>,
}

/// The runtime configuration of one workload instance on one agent.
pub struct StateDescriptor {
    pub api_version: String,
    pub instance_name: String,
    pub runtime: String,
    pub agent: String,
    pub restart_policy: String,
    pub runtime_config: String,
}

/// The model of a `StateDescriptor`: its texts.
pub struct DescriptorView {
    pub api_version: Seq<char>,
    pub instance_name: Seq<char>,
    pub runtime: Seq<char>,
    pub agent: Seq<char>,
    pub restart_policy: Seq<char>,
    pub runtime_config: Seq<char>,
}

impl View for StateDescriptor {
    type V = DescriptorView;

    open spec fn view(&self) -> DescriptorView {
        DescriptorView {
            api_version: self.api_version@,
            instance_name: self.instance_name@,
            runtime: self.runtime@,
            agent: self.agent@,
            restart_policy: self.restart_policy@,
            runtime_config: self.runtime_config@,
        }
    }
}

/// The key of a workload instance: `<workload name>-<agent>`.
pub open spec fn instance_name_of(workload_name: Seq<char>, agent: Seq<char>) -> Seq<char> {
    workload_name + "-"@ + agent
}

/// The runtime configuration string: the image, and the container options
/// that name the instance and inject the workload's name and version.
pub open spec fn runtime_config_of(
    image: Seq<char>,
    instance: Seq<char>,
    name: Seq<char>,
    version: Seq<char>,
) -> Seq<char> {
    "image: "@ + image + "\n  commandOptions: [\"--name\",\""@ + instance
        + "\",\"--env\",\"ECU_TYPE="@ + name + "\",\"--env\",\"ECU_VERSION="@ + version
        + "\"]"@
}

/// The descriptor of a workload with the given name, image and version on
/// the given agent.
pub open spec fn descriptor_of(
    name: Seq<char>,
    image: Seq<char>,
    version: Seq<char>,
    agent: Seq<char>,
) -> DescriptorView {
    let instance = instance_name_of(name, agent);
    DescriptorView {
        api_version: "v0.1"@,
        instance_name: instance,
        runtime: "podman"@,
        agent: agent,
        restart_policy: "ON_FAILURE"@,
        runtime_config: runtime_config_of(image, instance, name, version),
    }
}

/// The YAML document of a descriptor: the schema version, then the mapping
/// from the instance key to its configuration.
pub open spec fn document_of(d: DescriptorView) -> serde_yaml::Value {
    yaml_mapping(
        seq![
            (yaml_scalar("apiVersion"@), yaml_scalar(d.api_version)),
            (yaml_scalar("workloads"@), yaml_mapping(
                seq![(yaml_scalar(d.instance_name), yaml_mapping(
                    seq![
                        (yaml_scalar("runtime"@), yaml_scalar(d.runtime)),
                        (yaml_scalar("agent"@), yaml_scalar(d.agent)),
                        (yaml_scalar("restartPolicy"@), yaml_scalar(d.restart_policy)),
                        (yaml_scalar("runtimeConfig"@), yaml_scalar(d.runtime_config)),
                    ],
                ))],
            )),
        ],
    )
}

/// The text of the document of `workload` on `agent`, where serde_yaml can
/// emit it.
pub open spec fn state_text_of(w: &Workload, agent: Seq<char>) -> Option<Seq<char>> {
    yaml_rendering(document_of(descriptor_of(w.name@, w.image@, w.version@, agent)))
}

fn owned(s: &str) -> (r: String)
    ensures
        r@ == s@,
{
    String::from_str(s)
}

/// Generates the descriptor of `workload` on `agent`.
pub fn create_state(workload: &Workload, agent: &str) -> (r: StateDescriptor)
    ensures
        r@ == descriptor_of(workload.name@, workload.image@, workload.version@, agent@),
        r@.instance_name == workload.name@ + "-"@ + agent@,
{
    let mut instance = workload.name.clone();
    instance.append("-");
    instance.append(agent);
    let mut config = owned("image: ");
    config.append(workload.image.as_str());
    config.append("\n  commandOptions: [\"--name\",\"");
    config.append(instance.as_str());
    config.append("\",\"--env\",\"ECU_TYPE=");
    config.append(workload.name.as_str());
    config.append("\",\"--env\",\"ECU_VERSION=");
    config.append(workload.version.as_str());
    config.append("\"]");
    let r = StateDescriptor {
        api_version: owned("v0.1"),
        instance_name: instance,
        runtime: owned("podman"),
        agent: owned(agent),
        restart_policy: owned("ON_FAILURE"),
        runtime_config: config,
    };
    assert(r@ == descriptor_of(workload.name@, workload.image@, workload.version@, agent@));
    r
}

/// Builds the YAML document of a descriptor.
pub fn state_document(d: &StateDescriptor) -> (r: serde_yaml::Value)
    ensures
        r == document_of(d@),
{
    let entries = vec![
        (yaml_text(&owned("runtime")), yaml_text(&d.runtime)),
        (yaml_text(&owned("agent")), yaml_text(&d.agent)),
        (yaml_text(&owned("restartPolicy")), yaml_text(&d.restart_policy)),
        (yaml_text(&owned("runtimeConfig")), yaml_text(&d.runtime_config)),
    ];
    assert(entries@ =~= seq![
        (yaml_scalar("runtime"@), yaml_scalar(d.runtime@)),
        (yaml_scalar("agent"@), yaml_scalar(d.agent@)),
        (yaml_scalar("restartPolicy"@), yaml_scalar(d.restart_policy@)),
        (yaml_scalar("runtimeConfig"@), yaml_scalar(d.runtime_config@)),
    ]);
    let config = yaml_map(entries);
    let instances = vec![(yaml_text(&d.instance_name), config)];
    assert(instances@ =~= seq![(yaml_scalar(d.instance_name@), config)]);
    let workloads = yaml_map(instances);
    let top = vec![
        (yaml_text(&owned("apiVersion")), yaml_text(&d.api_version)),
        (yaml_text(&owned("workloads")), workloads),
    ];
    assert(top@ =~= seq![
        (yaml_scalar("apiVersion"@), yaml_scalar(d.api_version@)),
        (yaml_scalar("workloads"@), workloads),
    ]);
    let r = yaml_map(top);
    r
}

/// Emits the YAML text of a descriptor; the error describes why serde_yaml
/// could not.
pub fn render_state(d: &StateDescriptor) -> (r: Result<String, String>)
    ensures
        match r {
            Ok(s) => yaml_rendering(document_of(d@)) == Some(s@),
            Err(_) => yaml_rendering(document_of(d@)) is None,
        },
{
    let doc = state_document(d);
    match yaml_emit(&doc) {
        Ok(s) => Ok(s),
        Err(e) => Err(yaml_error_text(&e)),
    }
}

/// Generates the descriptor of `workload` on `agent` and emits its text.
pub fn state_text(workload: &Workload, agent: &str) -> (r: Result<String, String>)
    ensures
        match r {
            Ok(s) => state_text_of(workload, agent@) == Some(s@),
            Err(_) => state_text_of(workload, agent@) is None,
        },
{
    let d = create_state(workload, agent);
    render_state(&d)
}

/// The file that holds the descriptor of a workload on an agent while it is
/// applied.
pub open spec fn state_file_of(workload_name: Seq<char>, agent: Seq<char>) -> Seq<char> {
    "/tmp/ankaios-state-"@ + workload_name + "-"@ + agent + ".yaml"@
}

/// The path of the transient file for `workload_name` on `agent`.
pub fn state_file_path(workload_name: &str, agent: &str) -> (r: String)
    ensures
        r@ == state_file_of(workload_name@, agent@),
{
    let mut p = owned("/tmp/ankaios-state-");
    p.append(workload_name);
    p.append("-");
    p.append(agent);
    p.append(".yaml");
    p
}

/// Generating a descriptor is a function of its inputs: equal workloads and
/// agents give the same descriptor, and the same text wherever one is emitted.
pub proof fn state_generation_is_deterministic(w1: &Workload, a1: Seq<char>, w2: &Workload, a2: Seq<char>)
    requires
        w1.name@ == w2.name@,
        w1.image@ == w2.image@,
        w1.version@ == w2.version@,
        a1 == a2,
    ensures
        descriptor_of(w1.name@, w1.image@, w1.version@, a1) == descriptor_of(
            w2.name@,
            w2.image@,
            w2.version@,
            a2,
        ),
        state_text_of(w1, a1) == state_text_of(w2, a2),
{
}

} // verus!
