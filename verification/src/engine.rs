//! The step interpreter: walks a step program over an explicit pending-step
//! list, evaluates embedded expressions through the sandboxed evaluator,
//! splices conditional branches inline, and re-enters itself for named
//! compositions, yielding a final context or a typed failure.

use vstd::prelude::*;
use crate::bridge::{classify_eval_error, engine_with_limits, eval_raw, value_clone};
use crate::context::{merge_composition, Context};
use crate::convert::{tree_to_value, value_to_tree, CONVERT_DEPTH};
use crate::errors::{ActionError, EvalFailure};
use crate::json::{json_view, set_in, JsonValue, JsonView};
use crate::manifest::{clone_steps, find_route, lookup_route, step_view, ActionRunStep, Route,
    Step, StepView};
use crate::path::{path_malformed, path_root_is_context, set_value_by_path, split_dots};

verus! {

/// Ceiling on the total operations of one expression evaluation.
pub const MAX_OPERATIONS: u64 = 1_000_000;

/// Ceiling on the evaluator's call nesting.
pub const MAX_CALL_LEVELS: usize = 100;

/// Ceiling on the size of a string the evaluator may build.
pub const MAX_STRING_SIZE: usize = 1024 * 1024;

/// Ceiling on the nesting of composition calls: a chain of named
/// compositions deeper than this fails as a resource exhaustion rather than
/// recursing without bound.
pub const MAX_COMPOSITION_DEPTH: u64 = 64;

/// The size of one step: itself plus every step nested in its branches. The
/// measure under which inline branch expansion shrinks the pending list.
pub open spec fn step_size(s: Step) -> nat
    decreases s,
    via step_size_decreases
{
    match s {
        Step::Assignment { .. } => 1,
        Step::NamedComposition(_) => 1,
        Step::Conditional { expr: _, then_steps, else_steps } => {
            1 + steps_size(then_steps@) + match else_steps {
                Option::Some(b) => steps_size(b@),
                Option::None => 0nat,
            }
        },
    }
}

/// The total size of a step list.
pub open spec fn steps_size(ss: Seq<Step>) -> nat
    decreases ss, 0nat,
{
    if ss.len() == 0 {
        0nat
    } else {
        step_size(ss[0]) + steps_size(ss.drop_first())
    }
}

#[via_fn]
proof fn step_size_decreases(s: Step) {
    match s {
        Step::Conditional { expr: _, then_steps, else_steps } => {
            assert(decreases_to!(s => then_steps));
            vstd::std_specs::vec::axiom_vec_decreases_to_view(then_steps);
            match else_steps {
                Option::Some(b) => {
                    assert(decreases_to!(s => else_steps));
                    assert(decreases_to!(else_steps => b));
                    vstd::std_specs::vec::axiom_vec_decreases_to_view(b);
                },
                Option::None => {},
            }
        },
        _ => {},
    }
}

pub proof fn lemma_steps_size_concat(a: Seq<Step>, b: Seq<Step>)
    ensures
        steps_size(a + b) == steps_size(a) + steps_size(b),
    decreases a.len(),
{
    if a.len() == 0 {
        assert(a + b =~= b);
    } else {
        lemma_steps_size_concat(a.drop_first(), b);
        assert((a + b).drop_first() =~= a.drop_first() + b);
        assert((a + b)[0] == a[0]);
    }
}

pub proof fn lemma_steps_size_singleton(s: Step)
    ensures
        steps_size(seq![s]) == step_size(s),
{
    assert(seq![s].len() == 1);
    assert(seq![s][0] == s);
    assert(seq![s].drop_first() =~= Seq::<Step>::empty());
    assert(steps_size(Seq::<Step>::empty()) == 0);
}

pub proof fn lemma_steps_size_last(v: Seq<Step>)
    requires
        v.len() > 0,
    ensures
        steps_size(v) == steps_size(v.drop_last()) + step_size(v.last()),
{
    lemma_steps_size_concat(v.drop_last(), seq![v.last()]);
    lemma_steps_size_singleton(v.last());
    assert(v =~= v.drop_last() + seq![v.last()]);
}

pub proof fn lemma_steps_size_reverse(b: Seq<Step>)
    ensures
        steps_size(b.reverse()) == steps_size(b),
    decreases b.len(),
{
    if b.len() == 0 {
        assert(b.reverse() =~= b);
    } else {
        lemma_steps_size_reverse(b.drop_first());
        lemma_steps_size_concat(b.drop_first().reverse(), seq![b[0]]);
        lemma_steps_size_singleton(b[0]);
        assert(b.reverse() =~= b.drop_first().reverse() + seq![b[0]]);
    }
}

/// Push the steps of `branch` onto the pending stack in reverse order, so
/// that they pop in their declared order, before everything already pending.
fn push_reversed(pending: &mut Vec<Step>, branch: Vec<Step>)
    ensures
        final(pending)@ == old(pending)@ + branch@.reverse(),
{
    let mut b = branch;
    while b.len() > 0
        invariant
            b@.len() <= branch@.len(),
            b@ == branch@.take(b@.len() as int),
            pending@ == old(pending)@ + branch@.skip(b@.len() as int).reverse(),
        decreases b@.len(),
    {
        let ghost k = b@.len() as int;
        let s = match b.pop() {
            Option::Some(s) => s,
            Option::None => {
                proof {
                    assert(false);
                }
                Step::NamedComposition(ActionRunStep { name: String::new() })
            },
        };
        pending.push(s);
        proof {
            assert(b@ =~= branch@.take(k - 1));
            assert(s == branch@[k - 1]);
            assert(branch@.skip(k - 1).reverse() =~= branch@.skip(k).reverse().push(
                branch@[k - 1],
            ));
            assert(pending@ =~= old(pending)@ + branch@.skip(k - 1).reverse());
        }
    }
    proof {
        assert(branch@.skip(0).reverse() =~= branch@.reverse());
    }
}

/// Whether an evaluated condition selects the `then` branch: only the
/// boolean value true does; any other value counts as false.
pub fn is_true_bool(v: &JsonValue) -> (r: bool)
    ensures
        r == (json_view(*v) == JsonView::Bool(true)),
{
    broadcast use crate::json::lemma_json_view_shape;

    match v {
        JsonValue::Bool(b) => *b,
        _ => false,
    }
}

/// The step interpreter. Holds the sandboxed expression evaluator,
/// configured once with its resource ceilings.
pub struct ActionEngine {
    engine: rhai::Engine,
}

impl ActionEngine {
    /// An engine whose evaluator is bounded by the operation, call-depth and
    /// string-size ceilings.
    pub fn new() -> (r: Self) {
        ActionEngine {
            engine: engine_with_limits(MAX_OPERATIONS, MAX_CALL_LEVELS, MAX_STRING_SIZE),
        }
    }

    /// Evaluate one expression against the scope of the given context:
    /// `data`, `body`, `user` read-only, the workspace as the one mutable
    /// binding. On success, the result value and the workspace as the
    /// expression left it.
    fn eval_expression(&self, ctx: &Context, expr: &str) -> (r: Result<
        (JsonValue, JsonValue),
        EvalFailure,
    >) {
        let temp_out = tree_to_value(&ctx.temp);
        match eval_raw(&self.engine, &ctx.data, &ctx.body, &ctx.user, &temp_out, expr) {
            Result::Ok((val, after)) => Result::Ok(
                (value_to_tree(&val, CONVERT_DEPTH), value_to_tree(&after, CONVERT_DEPTH)),
            ),
            Result::Err(e) => Result::Err(classify_eval_error(e)),
        }
    }

    /// Execute one step against the current context. A conditional splices
    /// its selected branch onto the pending stack — the branch not selected
    /// contributes nothing; the other step kinds leave the stack alone.
    /// Whatever the embedded expressions evaluate to:
    /// - on success, body, user and collection data are unchanged;
    /// - a conditional step never fails: an evaluation failure there counts
    ///   as a false condition;
    /// - a composition step naming an unknown program fails with that name;
    ///   one whose target is known fails as a resource exhaustion when the
    ///   depth budget is spent; and one whose known target is the empty
    ///   program succeeds, with the caller's workspace wholly replaced by
    ///   that program's fresh, empty one;
    /// - an assignment either succeeds — only on a well-formed `context`
    ///   path, with the workspace carrying the evaluated value written at
    ///   that path — or fails with exactly that path's `InvalidPath` or
    ///   `NotMutable`, or with its expression's own failure.
    pub fn execute_step(
        &self,
        routes: &Vec<(String, Route)>,
        step: Step,
        cur: Context,
        pending: &mut Vec<Step>,
        depth: u64,
    ) -> (r: Result<Context, ActionError>)
        ensures
            (r matches Result::Ok(out) ==> out.body == cur.body && out.user == cur.user
                && out.data == cur.data),
            steps_size(final(pending)@) + 1 <= steps_size(old(pending)@) + step_size(step),
            !(step@ is Conditional) ==> final(pending)@ == old(pending)@,
            step@ is Conditional ==> ({
                ||| crate::manifest::steps_view(final(pending)@) == crate::manifest::steps_view(
                    old(pending)@,
                ) + step@->Conditional_then_steps.reverse()
                ||| crate::manifest::steps_view(final(pending)@) == crate::manifest::steps_view(
                    old(pending)@,
                ) + (match step@->Conditional_else_steps {
                    Option::Some(b) => b.reverse(),
                    Option::None => Seq::empty(),
                })
            }),
            step@ is Conditional ==> r is Ok,
            ({
                &&& step@ matches StepView::NamedComposition { name }
                &&& lookup_route(routes@, name) is None
            }) ==> ({
                &&& r matches Result::Err(e)
                &&& e matches ActionError::CompositionTargetNotFound(n)
                &&& n@ == step@->NamedComposition_name
            }),
            ({
                &&& step@ matches StepView::NamedComposition { name }
                &&& lookup_route(routes@, name) is Some
                &&& depth == 0
            }) ==> ({
                &&& r matches Result::Err(e)
                &&& e == ActionError::ResourceExceeded
            }),
            ({
                &&& step@ matches StepView::NamedComposition { name }
                &&& lookup_route(routes@, name) matches Some(rt)
                &&& rt.steps@.len() == 0
                &&& depth > 0
            }) ==> ({
                &&& r matches Result::Ok(out)
                &&& out.temp@ == JsonView::empty_object()
            }),
            step@ is Assignment ==> ({
                ||| ({
                    &&& r matches Result::Ok(out)
                    &&& !path_malformed(step@->Assignment_path)
                    &&& path_root_is_context(step@->Assignment_path)
                    &&& exists|w: JsonView, v: JsonView|
                        out.temp@ == set_in(w, split_dots(step@->Assignment_path).skip(1), v)
                })
                ||| ({
                    &&& r matches Result::Err(e)
                    &&& e matches ActionError::InvalidPath(p)
                    &&& p@ == step@->Assignment_path
                    &&& path_malformed(step@->Assignment_path)
                })
                ||| ({
                    &&& r matches Result::Err(e)
                    &&& e matches ActionError::NotMutable(p)
                    &&& p@ == step@->Assignment_path
                    &&& !path_malformed(step@->Assignment_path)
                    &&& !path_root_is_context(step@->Assignment_path)
                })
                ||| (r matches Result::Err(e) && e matches ActionError::ExpressionError(_))
                ||| (r matches Result::Err(e) && e == ActionError::ResourceExceeded)
            }),
        decreases depth, 0nat,
    {
        broadcast use crate::manifest::lemma_step_view_shape;

        match step {
            Step::NamedComposition(target) => {
                match find_route(routes, &target.name) {
                    Option::None => Result::Err(
                        ActionError::CompositionTargetNotFound(target.name),
                    ),
                    Option::Some(rt) => {
                        if depth == 0 {
                            return Result::Err(ActionError::ResourceExceeded);
                        }
                        let sub_ctx = Context::new(
                            value_clone(&cur.data),
                            value_clone(&cur.body),
                            value_clone(&cur.user),
                        );
                        match self.run_depth(routes, &rt.steps, sub_ctx, depth - 1) {
                            Result::Ok(sub_out) => {
                                proof {
                                    if rt.steps@.len() == 0 {
                                        assert(sub_out == sub_ctx);
                                        assert(sub_out.temp@ == JsonView::empty_object());
                                    }
                                }
                                Result::Ok(merge_composition(cur, sub_out))
                            },
                            Result::Err(e) => Result::Err(e),
                        }
                    },
                }
            },
            Step::Conditional { expr, then_steps, else_steps } => {
                match self.eval_expression(&cur, expr.as_str()) {
                    Result::Ok((val, after)) => {
                        let take_then = is_true_bool(&val);
                        let next = Context {
                            data: cur.data,
                            body: cur.body,
                            user: cur.user,
                            temp: after,
                        };
                        if take_then {
                            proof {
                                lemma_steps_size_reverse(then_steps@);
                                lemma_steps_size_concat(pending@, then_steps@.reverse());
                            }
                            let ghost before = pending@;
                            push_reversed(pending, then_steps);
                            proof {
                                crate::manifest::lemma_steps_view_concat(
                                    before,
                                    then_steps@.reverse(),
                                );
                                crate::manifest::lemma_steps_view_reverse(then_steps@);
                            }
                        } else {
                            match else_steps {
                                Option::Some(b) => {
                                    proof {
                                        lemma_steps_size_reverse(b@);
                                        lemma_steps_size_concat(pending@, b@.reverse());
                                    }
                                    let ghost before = pending@;
                                    push_reversed(pending, b);
                                    proof {
                                        crate::manifest::lemma_steps_view_concat(
                                            before,
                                            b@.reverse(),
                                        );
                                        crate::manifest::lemma_steps_view_reverse(b@);
                                    }
                                },
                                Option::None => {
                                    proof {
                                        assert(crate::manifest::steps_view(pending@)
                                            =~= crate::manifest::steps_view(pending@)
                                            + Seq::<StepView>::empty());
                                    }
                                },
                            }
                        }
                        Result::Ok(next)
                    },
                    Result::Err(_) => {
                        // Evaluation failure in a conditional is not fatal:
                        // the condition counts as false.
                        match else_steps {
                            Option::Some(b) => {
                                proof {
                                    lemma_steps_size_reverse(b@);
                                    lemma_steps_size_concat(pending@, b@.reverse());
                                }
                                let ghost before = pending@;
                                push_reversed(pending, b);
                                proof {
                                    crate::manifest::lemma_steps_view_concat(
                                        before,
                                        b@.reverse(),
                                    );
                                    crate::manifest::lemma_steps_view_reverse(b@);
                                }
                            },
                            Option::None => {
                                proof {
                                    assert(crate::manifest::steps_view(pending@)
                                        =~= crate::manifest::steps_view(pending@)
                                        + Seq::<StepView>::empty());
                                }
                            },
                        }
                        Result::Ok(cur)
                    },
                }
            },
            Step::Assignment { path, expr } => {
                match self.eval_expression(&cur, expr.as_str()) {
                    Result::Err(EvalFailure::Resource) => Result::Err(
                        ActionError::ResourceExceeded,
                    ),
                    Result::Err(EvalFailure::Script(m)) => Result::Err(
                        ActionError::ExpressionError(m),
                    ),
                    Result::Ok((val, after)) => {
                        let ghost w0 = json_view(after);
                        let ghost v0 = json_view(val);
                        let mut next = Context {
                            data: cur.data,
                            body: cur.body,
                            user: cur.user,
                            temp: after,
                        };
                        match set_value_by_path(&mut next.temp, path.as_str(), val) {
                            Result::Ok(()) => {
                                proof {
                                    assert(next.temp@ == set_in(
                                        w0,
                                        split_dots(path@).skip(1),
                                        v0,
                                    ));
                                }
                                Result::Ok(next)
                            },
                            Result::Err(e) => Result::Err(e),
                        }
                    },
                }
            },
        }
    }

    /// Interpret a step program against a context, with `depth` composition
    /// hops left. Whatever the embedded expressions evaluate to:
    /// - the request body and the acting user come back unchanged, and so
    ///   does the collection data, since composed runs preserve it in turn;
    /// - the empty program returns its context untouched;
    /// - a program whose first step names an unknown composition target
    ///   fails with that name, and nothing else runs;
    /// - a program whose first step is an assignment to a malformed path or
    ///   to one outside the mutable root fails with that path, unless the
    ///   expression itself already failed;
    /// - a program that is one composition of a known, empty program
    ///   succeeds, and the caller's workspace is wholly replaced by the
    ///   composed run's fresh, empty one — whatever it held before;
    /// - a program whose first step is a composition to a known target
    ///   fails as a resource exhaustion when the depth budget is spent;
    /// - a program that is one assignment succeeds only onto a well-formed
    ///   `context` path, and its workspace then carries the evaluated value
    ///   written at that path.
    #[verifier::loop_isolation(false)]
    pub fn run_depth(
        &self,
        routes: &Vec<(String, Route)>,
        steps: &Vec<Step>,
        context: Context,
        depth: u64,
    ) -> (r: Result<Context, ActionError>)
        ensures
            (r matches Result::Ok(out) ==> out.body == context.body && out.user == context.user
                && out.data == context.data),
            steps@.len() == 0 ==> (r matches Result::Ok(out) && out == context),
            ({
                &&& steps@.len() > 0
                &&& steps@[0]@ matches StepView::NamedComposition { name }
                &&& lookup_route(routes@, name) is None
            }) ==> ({
                &&& r matches Result::Err(e)
                &&& e matches ActionError::CompositionTargetNotFound(n)
                &&& n@ == steps@[0]@->NamedComposition_name
            }),
            ({
                &&& steps@.len() > 0
                &&& steps@[0]@ matches StepView::Assignment { path, expr: _ }
                &&& path_malformed(path)
            }) ==> ({
                &&& r matches Result::Err(e)
                &&& {
                    ||| (e matches ActionError::InvalidPath(p) && p@ == steps@[0]@
                        ->Assignment_path)
                    ||| e matches ActionError::ExpressionError(_)
                    ||| e == ActionError::ResourceExceeded
                }
            }),
            ({
                &&& steps@.len() > 0
                &&& steps@[0]@ matches StepView::Assignment { path, expr: _ }
                &&& !path_malformed(path)
                &&& !path_root_is_context(path)
            }) ==> ({
                &&& r matches Result::Err(e)
                &&& {
                    ||| (e matches ActionError::NotMutable(p) && p@ == steps@[0]@
                        ->Assignment_path)
                    ||| e matches ActionError::ExpressionError(_)
                    ||| e == ActionError::ResourceExceeded
                }
            }),
            ({
                &&& steps@.len() == 1
                &&& steps@[0]@ matches StepView::NamedComposition { name }
                &&& lookup_route(routes@, name) matches Some(rt)
                &&& rt.steps@.len() == 0
                &&& depth > 0
            }) ==> ({
                &&& r matches Result::Ok(out)
                &&& out.temp@ == JsonView::empty_object()
            }),
            ({
                &&& steps@.len() > 0
                &&& steps@[0]@ matches StepView::NamedComposition { name }
                &&& lookup_route(routes@, name) is Some
                &&& depth == 0
            }) ==> ({
                &&& r matches Result::Err(e)
                &&& e == ActionError::ResourceExceeded
            }),
            ({
                &&& steps@.len() == 1
                &&& steps@[0]@ is Assignment
            }) ==> (r matches Result::Ok(out) ==> ({
                &&& !path_malformed(steps@[0]@->Assignment_path)
                &&& path_root_is_context(steps@[0]@->Assignment_path)
                &&& exists|w: JsonView, v: JsonView|
                    out.temp@ == set_in(
                        w,
                        split_dots(steps@[0]@->Assignment_path).skip(1),
                        v,
                    )
            })),
        decreases depth, 1nat,
    {
        let cloned = clone_steps(steps);
        let ghost cloned0 = cloned@;
        let mut pending: Vec<Step> = Vec::new();
        push_reversed(&mut pending, cloned);
        let mut cur = context;
        proof {
            assert(crate::manifest::steps_view(cloned0).len() == crate::manifest::steps_view(
                steps@,
            ).len());
            assert(cloned0.len() == steps@.len());
            assert(pending@.len() == cloned0.len());
        }
        if pending.len() == 0 {
            return Result::Ok(cur);
        }
        let first = match pending.pop() {
            Option::Some(s) => s,
            Option::None => {
                proof {
                    assert(false);
                }
                Step::NamedComposition(ActionRunStep { name: String::new() })
            },
        };
        proof {
            assert(cloned0.reverse().last() == cloned0[0]);
            assert(first == cloned0[0]);
            assert(crate::manifest::steps_view(cloned0)[0] == step_view(cloned0[0]));
            assert(crate::manifest::steps_view(steps@)[0] == step_view(steps@[0]));
            assert(step_view(first) == step_view(steps@[0]));
        }
        match self.execute_step(routes, first, cur, &mut pending, depth) {
            Result::Err(e) => {
                return Result::Err(e);
            },
            Result::Ok(c2) => {
                cur = c2;
            },
        }
        while pending.len() > 0
            invariant
                cur.body == context.body,
                cur.user == context.user,
                cur.data == context.data,
                ({
                    &&& steps@.len() == 1
                    &&& steps@[0]@ matches StepView::NamedComposition { name }
                    &&& lookup_route(routes@, name) matches Some(rt)
                    &&& rt.steps@.len() == 0
                    &&& depth > 0
                }) ==> pending@.len() == 0 && cur.temp@ == JsonView::empty_object(),
                ({
                    &&& steps@.len() == 1
                    &&& steps@[0]@ is Assignment
                }) ==> pending@.len() == 0 && ({
                    &&& !path_malformed(steps@[0]@->Assignment_path)
                    &&& path_root_is_context(steps@[0]@->Assignment_path)
                    &&& exists|w: JsonView, v: JsonView|
                        cur.temp@ == set_in(
                            w,
                            split_dots(steps@[0]@->Assignment_path).skip(1),
                            v,
                        )
                }),
            decreases steps_size(pending@),
        {
            let ghost pending0 = pending@;
            proof {
                lemma_steps_size_last(pending0);
            }
            let step = match pending.pop() {
                Option::Some(s) => s,
                Option::None => {
                    proof {
                        assert(false);
                    }
                    Step::NamedComposition(ActionRunStep { name: String::new() })
                },
            };
            match self.execute_step(routes, step, cur, &mut pending, depth) {
                Result::Err(e) => {
                    return Result::Err(e);
                },
                Result::Ok(c2) => {
                    cur = c2;
                },
            }
        }
        Result::Ok(cur)
    }

    /// Interpret a step program against a context, with the full composition
    /// depth budget.
    pub fn run(&self, routes: &Vec<(String, Route)>, steps: &Vec<Step>, context: Context) -> (r:
        Result<Context, ActionError>)
        ensures
            (r matches Result::Ok(out) ==> out.body == context.body && out.user == context.user
                && out.data == context.data),
            steps@.len() == 0 ==> (r matches Result::Ok(out) && out == context),
            ({
                &&& steps@.len() > 0
                &&& steps@[0]@ matches StepView::NamedComposition { name }
                &&& lookup_route(routes@, name) is None
            }) ==> ({
                &&& r matches Result::Err(e)
                &&& e matches ActionError::CompositionTargetNotFound(n)
                &&& n@ == steps@[0]@->NamedComposition_name
            }),
            ({
                &&& steps@.len() > 0
                &&& steps@[0]@ matches StepView::Assignment { path, expr: _ }
                &&& path_malformed(path)
            }) ==> ({
                &&& r matches Result::Err(e)
                &&& {
                    ||| (e matches ActionError::InvalidPath(p) && p@ == steps@[0]@
                        ->Assignment_path)
                    ||| e matches ActionError::ExpressionError(_)
                    ||| e == ActionError::ResourceExceeded
                }
            }),
            ({
                &&& steps@.len() > 0
                &&& steps@[0]@ matches StepView::Assignment { path, expr: _ }
                &&& !path_malformed(path)
                &&& !path_root_is_context(path)
            }) ==> ({
                &&& r matches Result::Err(e)
                &&& {
                    ||| (e matches ActionError::NotMutable(p) && p@ == steps@[0]@
                        ->Assignment_path)
                    ||| e matches ActionError::ExpressionError(_)
                    ||| e == ActionError::ResourceExceeded
                }
            }),
            ({
                &&& steps@.len() == 1
                &&& steps@[0]@ matches StepView::NamedComposition { name }
                &&& lookup_route(routes@, name) matches Some(rt)
                &&& rt.steps@.len() == 0
            }) ==> ({
                &&& r matches Result::Ok(out)
                &&& out.temp@ == JsonView::empty_object()
            }),
            ({
                &&& steps@.len() == 1
                &&& steps@[0]@ is Assignment
            }) ==> (r matches Result::Ok(out) ==> ({
                &&& !path_malformed(steps@[0]@->Assignment_path)
                &&& path_root_is_context(steps@[0]@->Assignment_path)
                &&& exists|w: JsonView, v: JsonView|
                    out.temp@ == set_in(
                        w,
                        split_dots(steps@[0]@->Assignment_path).skip(1),
                        v,
                    )
            })),
    {
        self.run_depth(routes, steps, context, MAX_COMPOSITION_DEPTH)
    }
}

/// The top-level entry: resolve the named step program in the configuration,
/// build the initial context from the externally-read collection data, the
/// request body and the acting user, and interpret its steps. The caller
/// persists the returned `data` and derives its response from the returned
/// context. A name absent from configuration fails like an unknown
/// composition target; a named program with no steps succeeds and returns
/// the fresh context: the given data, body and user, and an empty workspace.
pub fn run_action(
    engine: &ActionEngine,
    routes: &Vec<(String, Route)>,
    name: &String,
    data: serde_json::Value,
    body: serde_json::Value,
    user: serde_json::Value,
) -> (r: Result<Context, ActionError>)
    ensures
        lookup_route(routes@, name@) is None ==> ({
            &&& r matches Result::Err(e)
            &&& e matches ActionError::CompositionTargetNotFound(n)
            &&& n@ == name@
        }),
        (r matches Result::Ok(out) ==> out.body == body && out.user == user && out.data == data),
        ({
            &&& lookup_route(routes@, name@) matches Some(rt)
            &&& rt.steps@.len() == 0
        }) ==> ({
            &&& r matches Result::Ok(out)
            &&& out.temp@ == JsonView::empty_object()
            &&& out.data == data
            &&& out.body == body
            &&& out.user == user
        }),
{
    match find_route(routes, name) {
        Option::None => Result::Err(ActionError::CompositionTargetNotFound(name.clone())),
        Option::Some(rt) => {
            let context = Context::new(data, body, user);
            engine.run(routes, &rt.steps, context)
        },
    }
}

} // verus!
