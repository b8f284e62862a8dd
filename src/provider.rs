//! A component provider for the symphony host: it reports no current
//! components and marks every component that a step updates as applied.
use vstd::prelude::*;

verus! {

#[verifier::external_type_specification]
#[verifier::external_body]
pub struct ExDeploymentSpec(symphony::models::DeploymentSpec);

#[verifier::external_type_specification]
#[verifier::external_body]
pub struct ExComponentStep(symphony::models::ComponentStep);

#[verifier::external_type_specification]
#[verifier::external_body]
pub struct ExComponentSpec(symphony::models::ComponentSpec);

/// What a deployment step asks of one component.
pub enum ComponentAction {
    Update,
    Delete,
}

/// One component of a deployment step: its name and what is asked of it.
pub struct ComponentChange {
    pub name: String,
    pub action: ComponentAction,
}

/// Whether `name` is the name of a component that `changes` update.
pub open spec fn is_updated(changes: Seq<ComponentChange>, name: Seq<char>) -> bool {
    exists|i: int| 0 <= i < changes.len() && changes[i].action is Update && #[trigger] changes[i].name@ == name
}

/// Whether `names` holds `name`.
pub open spec fn holds_name(names: Seq<String>, name: Seq<char>) -> bool {
    exists|j: int| 0 <= j < names.len() && #[trigger] names[j]@ == name
}

pub struct MyProvider;

fn holds(names: &Vec<String>, name: &String) -> (r: bool)
    ensures
        r == holds_name(names@, name@),
{
    let mut j: usize = 0;
    while j < names.len()
        invariant
            j <= names@.len(),
            forall|k: int| 0 <= k < j ==> #[trigger] names@[k]@ != name@,
        decreases names@.len() - j,
    {
        if names[j] == *name {
            return true;
        }
        j = j + 1;
    }
    false
}

impl MyProvider {
    /// The components currently deployed: this provider reports none.
    pub fn get(
        &self,
        _deployment: symphony::models::DeploymentSpec,
        _references: Vec<symphony::models::ComponentStep>,
    ) -> (r: Result<Vec<symphony::models::ComponentSpec>, String>)
        ensures
            r matches Ok(v) && v@.len() == 0,
    {
        Ok(Vec::new())
    }

    /// Applies a step: the names of the components it updates, each once;
    /// deleted components are left alone.
    pub fn apply(&self, changes: &Vec<ComponentChange>) -> (r: Vec<String>)
        ensures
            forall|j: int| 0 <= j < r@.len() ==> is_updated(changes@, #[trigger] r@[j]@),
            forall|n: Seq<char>| is_updated(changes@, n) ==> holds_name(r@, n),
            forall|j: int, k: int| 0 <= j < k < r@.len() ==> r@[j]@ != r@[k]@,
    {
        let mut r: Vec<String> = Vec::new();
        let mut i: usize = 0;
        while i < changes.len()
            invariant
                i <= changes@.len(),
                forall|j: int| 0 <= j < r@.len() ==> is_updated(changes@.subrange(0, i as int), #[trigger] r@[j]@),
                forall|n: Seq<char>| is_updated(changes@.subrange(0, i as int), n) ==> holds_name(r@, n),
                forall|j: int, k: int| 0 <= j < k < r@.len() ==> r@[j]@ != r@[k]@,
            decreases changes@.len() - i,
        {
            let ghost before = changes@.subrange(0, i as int);
            let ghost after = changes@.subrange(0, i + 1);
            let ghost old_r = r@;
            assert forall|n: Seq<char>| is_updated(before, n) implies is_updated(after, n) by {
                let k = choose|k: int| 0 <= k < before.len() && before[k].action is Update && #[trigger] before[k].name@ == n;
                assert(after[k] == before[k]);
            }
            let c = &changes[i];
            let pushed = matches!(c.action, ComponentAction::Update) && !holds(&r, &c.name);
            if pushed {
                r.push(c.name.clone());
                assert(after[i as int] == *c);
                assert forall|n: Seq<char>| holds_name(old_r, n) implies holds_name(r@, n) by {
                    let k = choose|k: int| 0 <= k < old_r.len() && #[trigger] old_r[k]@ == n;
                    assert(r@[k] == old_r[k]);
                }
                assert(r@[old_r.len() as int]@ == c.name@);
            }
            assert forall|n: Seq<char>| is_updated(after, n) implies holds_name(r@, n) by {
                if is_updated(before, n) {
                    assert(holds_name(old_r, n));
                    if !pushed {
                        assert(r@ == old_r);
                    }
                } else {
                    let k = choose|k: int| 0 <= k < after.len() && after[k].action is Update && #[trigger] after[k].name@ == n;
                    if k < i {
                        assert(before[k] == after[k]);
                    }
                    assert(k == i);
                    assert(c.action is Update);
                    if pushed {
                        assert(r@[old_r.len() as int]@ == c.name@);
                    } else {
                        assert(r@ == old_r);
                    }
                }
            }
            i = i + 1;
        }
        assert(changes@.subrange(0, changes@.len() as int) =~= changes@);
        r
    }
}

} // verus!
