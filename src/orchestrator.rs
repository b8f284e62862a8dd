//! The deployment orchestrator: resolves the agents of a request, hands out
//! one application per agent in order, and stops at the first failure.
//!
//! The orchestrator performs no I/O itself. Its driver asks for the next
//! action, performs an `Apply` (write the document to the path, run the
//! control-plane command on it) and records the outcome, until a `Finish`.
use vstd::prelude::*;
use crate::descriptor::{state_file_of, state_file_path, state_text, state_text_of, Workload};
use crate::selector::{agents_of, resolve_target_agents, texts};

verus! {

/// Identity of a target; metadata only.
pub struct TargetMetadata {
    pub name: String,
    pub namespace: String,
}

/// Labels that pick the agents; keys are unique.
pub struct TargetSelector {
    pub match_labels: Vec<(String, String)>,
}

/// What is deployed.
pub struct Deployment {
    pub workload: Workload,
}

pub struct TargetSpec {
    pub target_type: String,
    pub target_selector: TargetSelector,
    pub deployment: Deployment,
}

/// What to deploy and where.
pub struct Target {
    pub api_version: String,
    pub kind: String,
    pub metadata: TargetMetadata,
    pub spec: TargetSpec,
}

/// A deployment request; `action` is one of `deploy`, `update`, `rollback`
/// and all three are carried out alike.
pub struct DeploymentRequest {
    pub target: Target,
    pub action: String,
}

/// The one response to a request.
pub struct DeploymentResponse {
    pub success: bool,
    pub message: String,
    pub deployment_id: String,
    pub target_agents: Vec<String>,
}

/// Why an agent's application failed.
pub enum DeployError {
    /// The control-plane command exited with failure; its diagnostic text.
    ApplyFailure(String),
    /// The descriptor could not be produced or stored; why.
    DescriptorWriteFailure(String),
}

/// The description of an error.
pub open spec fn error_text(e: DeployError) -> Seq<char> {
    match e {
        DeployError::ApplyFailure(d) => "Failed to apply Ankaios state: "@ + d@,
        DeployError::DescriptorWriteFailure(d) => d@,
    }
}

/// Whether `t` occurs in `s` as a contiguous run.
pub open spec fn contains(s: Seq<char>, t: Seq<char>) -> bool {
    exists|i: int| 0 <= i <= s.len() - t.len() && #[trigger] s.subrange(i, i + t.len()) == t
}

/// The character of a decimal digit.
pub open spec fn digit_char(d: nat) -> char {
    if d == 0 { '0' } else if d == 1 { '1' } else if d == 2 { '2' } else if d == 3 { '3' }
    else if d == 4 { '4' } else if d == 5 { '5' } else if d == 6 { '6' } else if d == 7 { '7' }
    else if d == 8 { '8' } else { '9' }
}

/// The decimal digits of `n`, most significant first, without leading zeros.
pub open spec fn digits_of(n: nat) -> Seq<char>
    decreases n,
{
    if n < 10 {
        seq![digit_char(n)]
    } else {
        digits_of(n / 10).push(digit_char(n % 10))
    }
}

/// The decimal text of an integer, with a leading `-` when negative.
pub open spec fn decimal_of(n: int) -> Seq<char> {
    if n < 0 {
        seq!['-'] + digits_of((-n) as nat)
    } else {
        digits_of(n as nat)
    }
}

/// What `String::from_utf8_lossy` makes of bytes.
pub uninterp spec fn utf8_lossy(b: Seq<u8>) -> Seq<char>;

/// Relies on `ToString` of `i128`: the decimal text of the integer.
#[verifier::external_body]
fn decimal_text(n: i128) -> (r: String)
    ensures
        r@ == decimal_of(n as int),
{
    n.to_string()
}

/// Relies on `String::from_utf8_lossy`: the text of the bytes, a function of
/// the bytes alone.
#[verifier::external_body]
fn lossy_text(b: &Vec<u8>) -> (r: String)
    ensures
        r@ == utf8_lossy(b@),
{
    String::from_utf8_lossy(b.as_slice()).into_owned()
}

/// Relies on `chrono::Utc::now`: the current time in whole seconds since the
/// Unix epoch. Nothing is known of its value.
#[verifier::external_body]
fn now_timestamp() -> (r: i64) {
    chrono::Utc::now().timestamp()
}

fn owned(s: &str) -> (r: String)
    ensures
        r@ == s@,
{
    String::from_str(s)
}

impl DeployError {
    /// The description of this error.
    pub fn describe(&self) -> (r: String)
        ensures
            r@ == error_text(*self),
    {
        match self {
            DeployError::ApplyFailure(d) => {
                let mut s = owned("Failed to apply Ankaios state: ");
                s.append(d.as_str());
                s
            },
            DeployError::DescriptorWriteFailure(d) => d.clone(),
        }
    }
}

/// The outcome of one run of the control-plane command, from its exit
/// status and the bytes of its error stream.
pub fn apply_outcome(exit_success: bool, stderr: &Vec<u8>) -> (r: Result<(), DeployError>)
    ensures
        exit_success ==> r is Ok,
        !exit_success ==> (r matches Err(DeployError::ApplyFailure(d)) && d@ == utf8_lossy(stderr@)),
{
    if exit_success {
        Ok(())
    } else {
        Err(DeployError::ApplyFailure(lossy_text(stderr)))
    }
}

/// The response that reports `e`.
pub open spec fn reports_failure(r: DeploymentResponse, e: DeployError) -> bool {
    &&& !r.success
    &&& r.message@ == "Deployment failed: "@ + error_text(e)
    &&& r.deployment_id@.len() == 0
    &&& r.target_agents@.len() == 0
}

/// The response that reports success of deploying `workload_name` to
/// `agents` at time `ts`.
pub open spec fn reports_success(
    r: DeploymentResponse,
    workload_name: Seq<char>,
    agents: Seq<Seq<char>>,
    ts: int,
) -> bool {
    &&& r.success
    &&& r.message@ == "Successfully deployed "@ + workload_name + " to "@ + decimal_of(
        agents.len() as int,
    ) + " agents"@
    &&& r.deployment_id@ == "deployment-"@ + decimal_of(ts)
    &&& texts(r.target_agents@) == agents
}

/// The failed response for `e`.
pub fn failure_response(e: &DeployError) -> (r: DeploymentResponse)
    ensures
        reports_failure(r, *e),
{
    let mut message = owned("Deployment failed: ");
    message.append(e.describe().as_str());
    DeploymentResponse {
        success: false,
        message,
        deployment_id: String::new(),
        target_agents: Vec::new(),
    }
}

/// The successful response for deploying `workload_name` to `agents` at
/// time `ts`.
pub fn success_response(workload_name: &str, agents: Vec<String>, ts: i64) -> (r: DeploymentResponse)
    ensures
        reports_success(r, workload_name@, texts(agents@), ts as int),
{
    let mut message = owned("Successfully deployed ");
    message.append(workload_name);
    message.append(" to ");
    message.append(decimal_text(agents.len() as i128).as_str());
    message.append(" agents");
    let mut id = owned("deployment-");
    id.append(decimal_text(ts as i128).as_str());
    DeploymentResponse { success: true, message, deployment_id: id, target_agents: agents }
}

/// What the driver does next.
pub enum Action {
    /// Store `document` at `path` and apply it for `agent`, then record the
    /// outcome.
    Apply { agent: String, path: String, document: String },
    /// The request is done; hand back the response.
    Finish(DeploymentResponse),
}

/// One request in progress: the agents, how many of them were applied, and
/// the failure that stopped it, if any.
pub struct Orchestration {
    pub workload: Workload,
    pub agents: Vec<String>,
    pub applied: usize,
    pub failure: Option<DeployError>,
}

impl Orchestration {
    /// At most all agents were applied.
    pub open spec fn wf(&self) -> bool {
        self.applied <= self.agents@.len()
    }

    /// Whether the next action is the last one.
    pub open spec fn finishing(&self) -> bool {
        self.failure is Some || self.applied == self.agents@.len()
    }

    /// Starts a request: resolves its agents; nothing is applied yet.
    pub fn new(request: &DeploymentRequest) -> (r: Orchestration)
        ensures
            r.wf(),
            texts(r.agents@) == agents_of(request.target.spec.target_selector.match_labels@),
            r.workload.name@ == request.target.spec.deployment.workload.name@,
            r.workload.image@ == request.target.spec.deployment.workload.image@,
            r.workload.version@ == request.target.spec.deployment.workload.version@,
            r.workload.env@.len() == request.target.spec.deployment.workload.env@.len(),
            forall|i: int|
                0 <= i < r.workload.env@.len() ==> #[trigger] r.workload.env@[i].0@
                    == request.target.spec.deployment.workload.env@[i].0@
                    && r.workload.env@[i].1@ == request.target.spec.deployment.workload.env@[i].1@,
            r.applied == 0,
            r.failure is None,
    {
        let agents = resolve_target_agents(&request.target.spec.target_selector.match_labels);
        let w = &request.target.spec.deployment.workload;
        let workload = Workload {
            name: w.name.clone(),
            image: w.image.clone(),
            version: w.version.clone(),
            env: clone_pairs(&w.env),
        };
        Orchestration { workload, agents, applied: 0, failure: None }
    }

    /// The next action: the failure response once an application failed;
    /// else the application for the next agent, in order; else, when all
    /// were applied, the success response stamped with the current time.
    pub fn next_action(&self) -> (a: Action)
        requires
            self.wf(),
        ensures
            self.failure matches Some(e) ==> (a matches Action::Finish(r) && reports_failure(r, e)),
            self.failure is None && self.applied < self.agents@.len() ==> {
                let agent = self.agents@[self.applied as int]@;
                match state_text_of(&self.workload, agent) {
                    Some(t) => a matches Action::Apply { agent: g, path, document } && g@ == agent
                        && path@ == state_file_of(self.workload.name@, agent) && document@ == t,
                    None => a matches Action::Finish(r) && exists|why: String| #[trigger]
                        reports_failure(r, DeployError::DescriptorWriteFailure(why)),
                }
            },
            self.failure is None && self.applied == self.agents@.len() ==> (a matches Action::Finish(r)
                && exists|ts: int| #[trigger] reports_success(r, self.workload.name@, texts(self.agents@), ts)),
    {
        match &self.failure {
            Some(e) => Action::Finish(failure_response(e)),
            None => {
                if self.applied < self.agents.len() {
                    let agent = self.agents[self.applied].as_str();
                    match state_text(&self.workload, agent) {
                        Ok(document) => Action::Apply {
                            agent: owned(agent),
                            path: state_file_path(self.workload.name.as_str(), agent),
                            document,
                        },
                        Err(why) => {
                            let e = DeployError::DescriptorWriteFailure(why);
                            let r = failure_response(&e);
                            assert(reports_failure(r, e));
                            let act = Action::Finish(r);
                            assert(act->Finish_0 == r);
                            act
                        },
                    }
                } else {
                    let ts = now_timestamp();
                    let r = success_response(self.workload.name.as_str(), clone_texts(&self.agents), ts);
                    assert(reports_success(r, self.workload.name@, texts(self.agents@), ts as int));
                    let act = Action::Finish(r);
                    assert(act->Finish_0 == r);
                    act
                }
            },
        }
    }

    /// Records the outcome of the application that `next_action` asked for:
    /// success moves on to the next agent, failure stops the request.
    pub fn record(&mut self, outcome: Result<(), DeployError>)
        requires
            old(self).wf(),
            old(self).failure is None,
            old(self).applied < old(self).agents@.len(),
        ensures
            final(self).wf(),
            final(self).workload == old(self).workload,
            final(self).agents == old(self).agents,
            match outcome {
                Ok(()) => final(self).applied == old(self).applied + 1 && final(self).failure is None,
                Err(e) => final(self).applied == old(self).applied && final(self).failure == Some(e),
            },
    {
        match outcome {
            Ok(()) => {
                let n = self.agents.len();
                assert(self.applied < n);
                self.applied = self.applied + 1;
            },
            Err(e) => {
                self.failure = Some(e);
            },
        }
    }
}

/// A copy of a list of texts.
pub fn clone_texts(v: &Vec<String>) -> (r: Vec<String>)
    ensures
        texts(r@) == texts(v@),
{
    let mut r: Vec<String> = Vec::new();
    let mut i: usize = 0;
    while i < v.len()
        invariant
            i <= v@.len(),
            texts(r@) == texts(v@.subrange(0, i as int)),
        decreases v@.len() - i,
    {
        r.push(v[i].clone());
        assert(texts(v@.subrange(0, i + 1)) =~= texts(v@.subrange(0, i as int)).push(v@[i as int]@));
        assert(texts(r@) =~= texts(v@.subrange(0, i as int)).push(v@[i as int]@));
        i = i + 1;
    }
    assert(v@.subrange(0, v@.len() as int) =~= v@);
    r
}

/// A copy of a list of key/value pairs.
pub fn clone_pairs(v: &Vec<(String, String)>) -> (r: Vec<(String, String)>)
    ensures
        r@.len() == v@.len(),
        forall|i: int| 0 <= i < v@.len() ==> #[trigger] r@[i].0@ == v@[i].0@ && r@[i].1@ == v@[i].1@,
{
    let mut r: Vec<(String, String)> = Vec::new();
    let mut i: usize = 0;
    while i < v.len()
        invariant
            i <= v@.len(),
            r@.len() == i,
            forall|j: int| 0 <= j < i ==> #[trigger] r@[j].0@ == v@[j].0@ && r@[j].1@ == v@[j].1@,
        decreases v@.len() - i,
    {
        r.push((v[i].0.clone(), v[i].1.clone()));
        i = i + 1;
    }
    r
}

/// A failed application is reported with its diagnostic text: the response
/// fails, carries no deployment id and no agents, and its message holds the
/// diagnostic.
pub proof fn apply_failure_is_reported(r: DeploymentResponse, e: DeployError)
    requires
        reports_failure(r, e),
        e is ApplyFailure,
    ensures
        !r.success,
        r.deployment_id@.len() == 0,
        r.target_agents@.len() == 0,
        contains(r.message@, e->ApplyFailure_0@),
{
    let d = e->ApplyFailure_0@;
    let prefix = "Deployment failed: "@ + "Failed to apply Ankaios state: "@;
    assert(r.message@ =~= prefix + d);
    assert(r.message@.subrange(prefix.len() as int, (prefix.len() + d.len()) as int) =~= d);
}

/// When every application succeeds the response succeeds, lists the agents
/// in the order they were resolved, and carries a deployment id.
pub proof fn success_is_reported(r: DeploymentResponse, workload_name: Seq<char>, agents: Seq<Seq<char>>, ts: int)
    requires
        reports_success(r, workload_name, agents, ts),
    ensures
        r.success,
        texts(r.target_agents@) == agents,
        r.target_agents@.len() == agents.len(),
        r.deployment_id@.len() > 0,
{
    assert(texts(r.target_agents@).len() == r.target_agents@.len());
}

} // verus!
