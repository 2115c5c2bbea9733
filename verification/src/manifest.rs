//! The configuration model: named step programs (routes) and the other
//! sections of the configuration document, as plain data. Parsed once at
//! startup, immutable thereafter.

use vstd::prelude::*;
use crate::json::JsonValue;

verus! {

/// The target of a named composition step.
#[derive(Debug)]
pub struct ActionRunStep {
    pub name: String,
}

/// One unit of execution: write an evaluated expression to a path, branch on
/// a condition, or invoke another step program by name.
#[derive(Debug)]
pub enum Step {
    Assignment { path: String, expr: String },
    Conditional { expr: String, then_steps: Vec<Step>, else_steps: Option<Vec<Step>> },
    NamedComposition(ActionRunStep),
}

/// The mathematical model of a `Step`.
pub enum StepView {
    Assignment { path: Seq<char>, expr: Seq<char> },
    Conditional { expr: Seq<char>, then_steps: Seq<StepView>, else_steps: Option<Seq<StepView>> },
    NamedComposition { name: Seq<char> },
}

pub closed spec fn step_view(s: Step) -> StepView
    decreases s,
    via step_view_decreases
{
    match s {
        Step::Assignment { path, expr } => StepView::Assignment { path: path@, expr: expr@ },
        Step::Conditional { expr, then_steps, else_steps } => StepView::Conditional {
            expr: expr@,
            then_steps: Seq::new(
                then_steps@.len(),
                |i: int|
                    if 0 <= i < then_steps@.len() {
                        step_view(then_steps[i])
                    } else {
                        StepView::NamedComposition { name: Seq::empty() }
                    },
            ),
            else_steps: match else_steps {
                Option::Some(branch) => Option::Some(
                    Seq::new(
                        branch@.len(),
                        |i: int|
                            if 0 <= i < branch@.len() {
                                step_view(branch[i])
                            } else {
                                StepView::NamedComposition { name: Seq::empty() }
                            },
                    ),
                ),
                Option::None => Option::None,
            },
        },
        Step::NamedComposition(a) => StepView::NamedComposition { name: a.name@ },
    }
}

#[via_fn]
proof fn step_view_decreases(s: Step) {
    match s {
        Step::Conditional { expr, then_steps, else_steps } => {
            assert forall|i: int|
                0 <= i < then_steps@.len() implies decreases_to!(s => then_steps[i]) by {
                assert(decreases_to!(s => then_steps));
                vstd::std_specs::vec::axiom_vec_index_decreases(then_steps, i);
            }
            match else_steps {
                Option::Some(branch) => {
                    assert forall|i: int|
                        0 <= i < branch@.len() implies decreases_to!(s => branch[i]) by {
                        assert(decreases_to!(s => else_steps));
                        assert(decreases_to!(else_steps => branch));
                        vstd::std_specs::vec::axiom_vec_index_decreases(branch, i);
                    }
                },
                Option::None => {},
            }
        },
        _ => {},
    }
}

impl View for Step {
    type V = StepView;

    open spec fn view(&self) -> StepView {
        step_view(*self)
    }
}

/// The views of a sequence of steps.
pub open spec fn steps_view(ss: Seq<Step>) -> Seq<StepView> {
    Seq::new(ss.len(), |i: int| step_view(ss[i]))
}

/// How `step_view` acts on each constructor.
pub broadcast proof fn lemma_step_view_shape(s: Step)
    ensures
        #[trigger] step_view(s) == match s {
            Step::Assignment { path, expr } => StepView::Assignment {
                path: path@,
                expr: expr@,
            },
            Step::Conditional { expr, then_steps, else_steps } => StepView::Conditional {
                expr: expr@,
                then_steps: steps_view(then_steps@),
                else_steps: match else_steps {
                    Option::Some(branch) => Option::Some(steps_view(branch@)),
                    Option::None => Option::None,
                },
            },
            Step::NamedComposition(a) => StepView::NamedComposition { name: a.name@ },
        },
{
    match s {
        Step::Conditional { expr, then_steps, else_steps } => {
            assert(step_view(s) is Conditional);
            let tv = step_view(s)->Conditional_then_steps;
            assert(tv =~= steps_view(then_steps@));
            match else_steps {
                Option::Some(branch) => {
                    let ev = step_view(s)->Conditional_else_steps;
                    assert(ev is Some);
                    assert(ev->0 =~= steps_view(branch@));
                },
                Option::None => {},
            }
        },
        _ => {},
    }
}

pub proof fn lemma_steps_view_concat(a: Seq<Step>, b: Seq<Step>)
    ensures
        steps_view(a + b) == steps_view(a) + steps_view(b),
{
    assert(steps_view(a + b) =~= steps_view(a) + steps_view(b));
}

pub proof fn lemma_steps_view_reverse(a: Seq<Step>)
    ensures
        steps_view(a.reverse()) == steps_view(a).reverse(),
{
    assert(steps_view(a.reverse()) =~= steps_view(a).reverse());
}

/// A deep copy of one step, equal to the original in its model.
pub fn clone_step(s: &Step) -> (r: Step)
    ensures
        r@ == s@,
    decreases *s,
{
    broadcast use lemma_step_view_shape;

    match s {
        Step::Assignment { path, expr } => Step::Assignment {
            path: path.clone(),
            expr: expr.clone(),
        },
        Step::Conditional { expr, then_steps, else_steps } => {
            let then2 = clone_steps(then_steps);
            let else2 = match else_steps {
                Option::Some(branch) => Option::Some(clone_steps(branch)),
                Option::None => Option::None,
            };
            Step::Conditional { expr: expr.clone(), then_steps: then2, else_steps: else2 }
        },
        Step::NamedComposition(a) => Step::NamedComposition(ActionRunStep { name: a.name.clone() }),
    }
}

/// A deep copy of a step list, equal to the original in its model.
pub fn clone_steps(v: &Vec<Step>) -> (r: Vec<Step>)
    ensures
        steps_view(r@) == steps_view(v@),
    decreases *v,
{
    let mut r: Vec<Step> = Vec::new();
    let mut i: usize = 0;
    while i < v.len()
        invariant
            0 <= i <= v@.len(),
            r@.len() == i,
            forall|q: int| 0 <= q < i ==> step_view(r@[q]) == step_view(v@[q]),
        decreases v@.len() - i,
    {
        proof {
            vstd::std_specs::vec::axiom_vec_index_decreases(*v, i as int);
        }
        let c = clone_step(&v[i]);
        r.push(c);
        i = i + 1;
    }
    proof {
        assert(steps_view(r@) =~= steps_view(v@));
    }
    r
}

/// A real-time channel: watch a collection, emit an event with a payload
/// read from a collection.
#[derive(Debug)]
pub struct SocketConfig {
    pub watch: String,
    pub emit: EmitConfig,
}

#[derive(Debug)]
pub struct EmitConfig {
    pub event: String,
    pub payload: String,
}

#[derive(Debug)]
pub struct AuthConfig {
    pub user_connector: String,
    pub identity_field: String,
    pub password_field: String,
}

#[derive(Debug)]
pub struct ConnectorConfig {
    pub connector_type: String,
    pub collection: Option<String>,
    pub initial_state: JsonValue,
}

/// A component is either just a template file name, or a template with an
/// optional style file.
#[derive(Debug)]
pub enum ComponentConfig {
    Simple(String),
    Detailed { template: String, style: Option<String> },
}

/// A named step program: an ordered list of steps with the collections it
/// reads and writes and an optional component to re-render.
#[derive(Debug)]
pub struct Route {
    pub route_type: String,
    pub reads: Vec<String>,
    pub writes: Vec<String>,
    pub update: Option<String>,
    pub steps: Vec<Step>,
    pub internal: Option<bool>,
}

/// The whole configuration document.
#[derive(Debug)]
pub struct Manifest {
    pub globals: JsonValue,
    pub sockets: Vec<(String, SocketConfig)>,
    pub auth: Option<AuthConfig>,
    pub connectors: Vec<(String, ConnectorConfig)>,
    pub components: Vec<(String, ComponentConfig)>,
    pub routes: Vec<(String, Route)>,
}

/// The route bound to name `n`: the first entry with that name, if any.
pub open spec fn lookup_route(rs: Seq<(String, Route)>, n: Seq<char>) -> Option<Route>
    decreases rs.len(),
{
    if rs.len() == 0 {
        Option::None
    } else if rs[0].0@ == n {
        Option::Some(rs[0].1)
    } else {
        lookup_route(rs.drop_first(), n)
    }
}

pub proof fn lemma_lookup_route_found(rs: Seq<(String, Route)>, n: Seq<char>, idx: int)
    requires
        0 <= idx < rs.len(),
        rs[idx].0@ == n,
        forall|j: int| 0 <= j < idx ==> rs[j].0@ != n,
    ensures
        lookup_route(rs, n) == Option::Some(rs[idx].1),
    decreases idx,
{
    if idx == 0 {
    } else {
        lemma_lookup_route_found(rs.drop_first(), n, idx - 1);
    }
}

pub proof fn lemma_lookup_route_absent(rs: Seq<(String, Route)>, n: Seq<char>)
    requires
        forall|j: int| 0 <= j < rs.len() ==> rs[j].0@ != n,
    ensures
        lookup_route(rs, n) is None,
    decreases rs.len(),
{
    if rs.len() > 0 {
        lemma_lookup_route_absent(rs.drop_first(), n);
    }
}

/// Resolve a program name in the configuration's set of step programs.
pub fn find_route<'a>(routes: &'a Vec<(String, Route)>, name: &String) -> (r: Option<&'a Route>)
    ensures
        match r {
            Option::Some(rt) => lookup_route(routes@, name@) == Option::Some(*rt),
            Option::None => lookup_route(routes@, name@) is None,
        },
{
    let mut idx: usize = 0;
    while idx < routes.len()
        invariant
            0 <= idx <= routes@.len(),
            forall|j: int| 0 <= j < idx ==> routes@[j].0@ != name@,
        decreases routes@.len() - idx,
    {
        if routes[idx].0 == *name {
            proof {
                lemma_lookup_route_found(routes@, name@, idx as int);
            }
            return Option::Some(&routes[idx].1);
        }
        idx = idx + 1;
    }
    proof {
        lemma_lookup_route_absent(routes@, name@);
    }
    Option::None
}

} // verus!
