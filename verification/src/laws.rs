//! Laws of the unification core, stated and proved over the same spec
//! functions that the executable functions' contracts use.

use vstd::prelude::*;

use crate::schema::AllowedValuesView;
use crate::schema::ModelDescriptorView;
use crate::schema::ParameterView;
use crate::schema::StateVariableView;
use crate::unify::applied_upto;
use crate::unify::first_conflict_from;
use crate::unify::fold_state_vars;
use crate::unify::index_of_action;
use crate::unify::index_of_var;
use crate::unify::lemma_first_conflict_from;
use crate::unify::lemma_index_of_var;
use crate::unify::merge_value_lists;
use crate::unify::merge_value_step;
use crate::unify::new_position;
use crate::unify::spec_apply_parameter;
use crate::unify::spec_merge_action;
use crate::unify::spec_merge_allowed;
use crate::unify::spec_merge_state_var;
use crate::unify::spec_unify;
use crate::merged::VersionedParameterView;

verus! {

/// The shape of the unified list after one model's parameters have been
/// applied without conflict: every position the model reaches keeps its
/// parameter and optionality and gains the model as a supporter; every
/// position the model introduces is supported by the model alone and is
/// optional exactly when the list was not empty on entry.
pub proof fn lemma_applied_upto_shape(
    target: Seq<VersionedParameterView>,
    source: Seq<ParameterView>,
    model: Seq<char>,
    k: int,
)
    requires
        0 <= k <= source.len(),
    ensures
        ({
            let r = applied_upto(target, source, model, k);
            &&& r.len() == if k <= target.len() { target.len() as int } else { k }
            &&& forall|i: int| 0 <= i < target.len() ==> (#[trigger] r[i]).param
                == target[i].param && r[i].optional == target[i].optional
                && r[i].supported_by == if i < k {
                    target[i].supported_by.push(model)
                } else {
                    target[i].supported_by
                }
            &&& forall|i: int| target.len() <= i < r.len()
                ==> #[trigger] r[i] == new_position(source[i], model, target.len() != 0)
        }),
    decreases k,
{
    if k > 0 {
        lemma_applied_upto_shape(target, source, model, k - 1);
    }
}

/// Baseline-required invariant, seeding half: the first model ever to
/// define an action establishes its baseline: every position it defines is
/// present, non-optional, and supported by that model alone.
pub proof fn lemma_first_model_baseline(source: Seq<ParameterView>, model: Seq<char>)
    ensures
        ({
            let r = spec_apply_parameter(Seq::empty(), source, model);
            &&& r is Some
            &&& r.unwrap().len() == source.len()
            &&& forall|i: int| 0 <= i < source.len()
                ==> #[trigger] r.unwrap()[i] == new_position(source[i], model, false)
        }),
{
    let empty = Seq::<VersionedParameterView>::empty();
    lemma_first_conflict_from(empty, source, 0);
    lemma_applied_upto_shape(empty, source, model, source.len() as int);
}

/// Baseline-required invariant, extension half: a model that meets an
/// already established action leaves every existing position's parameter
/// and optionality untouched, and every position it introduces beyond the
/// baseline is optional and supported by that model alone.
pub proof fn lemma_later_model_extension(
    target: Seq<VersionedParameterView>,
    source: Seq<ParameterView>,
    model: Seq<char>,
)
    requires
        target.len() > 0,
        spec_apply_parameter(target, source, model) is Some,
    ensures
        ({
            let r = spec_apply_parameter(target, source, model).unwrap();
            &&& r.len() == if source.len() <= target.len() {
                target.len() as int
            } else {
                source.len() as int
            }
            &&& forall|i: int| 0 <= i < target.len() ==> (#[trigger] r[i]).param
                == target[i].param && r[i].optional == target[i].optional
            &&& forall|i: int| target.len() <= i < r.len()
                ==> #[trigger] r[i] == new_position(source[i], model, true)
        }),
{
    lemma_applied_upto_shape(target, source, model, source.len() as int);
}

/// Baseline-required invariant at the action level: a model that brings a
/// so-far-unseen action name establishes that action's baseline: the merge
/// succeeds, the action joins the end of the unified list, and every input
/// and output position it defines is non-optional and supported by that
/// model alone.
pub proof fn lemma_new_action_baseline(
    actions: Seq<crate::merged::VersionedActionView>,
    action: crate::schema::ActionDescriptorView,
    model: Seq<char>,
)
    requires
        index_of_action(actions, action.name) == -1,
    ensures
        spec_merge_action(actions, action, model) is Some,
        ({
            let r = spec_merge_action(actions, action, model).unwrap();
            &&& r.len() == actions.len() + 1
            &&& forall|i: int| 0 <= i < actions.len() ==> r[i] == actions[i]
            &&& r[actions.len() as int].name == action.name
            &&& r[actions.len() as int].inputs.len() == action.inputs.len()
            &&& forall|i: int| 0 <= i < action.inputs.len()
                ==> #[trigger] r[actions.len() as int].inputs[i]
                    == new_position(action.inputs[i], model, false)
            &&& r[actions.len() as int].outputs.len() == action.outputs.len()
            &&& forall|i: int| 0 <= i < action.outputs.len()
                ==> #[trigger] r[actions.len() as int].outputs[i]
                    == new_position(action.outputs[i], model, false)
        }),
{
    lemma_first_model_baseline(action.inputs, model);
    lemma_first_model_baseline(action.outputs, model);
}

/// Equality enforcement: applying a model's parameter list succeeds
/// exactly when every position shared with the unified list holds the very
/// same parameter; one disagreeing shared position aborts the merge.
pub proof fn lemma_equality_enforcement(
    target: Seq<VersionedParameterView>,
    source: Seq<ParameterView>,
    model: Seq<char>,
)
    ensures
        spec_apply_parameter(target, source, model) is Some <==> (forall|i: int|
            0 <= i < target.len() && i < source.len() ==> (#[trigger] target[i]).param
                == source[i]),
{
    lemma_first_conflict_from(target, source, 0);
}

/// Equality enforcement across two models: once the first model has
/// established an action, a second model's list merges exactly when the
/// two lists agree on every position both of them define.
pub proof fn lemma_two_model_agreement(
    params1: Seq<ParameterView>,
    params2: Seq<ParameterView>,
    model1: Seq<char>,
    model2: Seq<char>,
)
    ensures
        ({
            let first = spec_apply_parameter(Seq::empty(), params1, model1).unwrap();
            spec_apply_parameter(first, params2, model2) is Some <==> (forall|i: int|
                0 <= i < params1.len() && i < params2.len()
                    ==> #[trigger] params1[i] == params2[i])
        }),
{
    lemma_first_model_baseline(params1, model1);
    let first = spec_apply_parameter(Seq::empty(), params1, model1).unwrap();
    lemma_equality_enforcement(first, params2, model2);
    assert(forall|i: int| 0 <= i < first.len() ==> (#[trigger] first[i]).param == params1[i]);
    if spec_apply_parameter(first, params2, model2) is Some {
        assert forall|i: int| 0 <= i < params1.len() && i < params2.len() implies #[trigger]
        params1[i] == params2[i] by {
            assert(first[i].param == params2[i]);
            assert(first[i].param == params1[i]);
        }
    } else {
        if forall|i: int| 0 <= i < params1.len() && i < params2.len()
            ==> #[trigger] params1[i] == params2[i] {
            assert forall|i: int| 0 <= i < first.len() && i < params2.len() implies (#[trigger]
            first[i]).param == params2[i] by {
                assert(params1[i] == params2[i]);
            }
            assert(spec_apply_parameter(first, params2, model2) is Some);
        }
    }
}

/// A list already holding every value of another list absorbs it: the
/// union appends nothing.
pub proof fn lemma_merge_value_lists_absorbed(target: Seq<Seq<char>>, source: Seq<Seq<char>>)
    requires
        forall|x: Seq<char>| source.contains(x) ==> target.contains(x),
    ensures
        merge_value_lists(target, source) == target,
    decreases source.len(),
{
    if source.len() > 0 {
        assert(source.contains(source[0]));
        assert(merge_value_step(target, source[0]) == target);
        assert(forall|x: Seq<char>| source.drop_first().contains(x)
            ==> #[trigger] source.contains(x)) by {
            assert forall|x: Seq<char>| source.drop_first().contains(x) implies source.contains(
                x,
            ) by {
                let j = choose|j: int|
                    0 <= j < source.drop_first().len() && source.drop_first()[j] == x;
                assert(source[j + 1] == x);
            }
        }
        lemma_merge_value_lists_absorbed(target, source.drop_first());
    }
}

/// Allowed-value union idempotence: merging an allowed-value list into
/// itself, once or twice, leaves it unchanged, with no duplicates added.
pub proof fn lemma_allowed_union_idempotent(values: Seq<Seq<char>>)
    ensures
        merge_value_lists(values, values) == values,
        merge_value_lists(merge_value_lists(values, values), values) == values,
        spec_merge_allowed(
            Option::Some(AllowedValuesView::List(values)),
            Option::Some(AllowedValuesView::List(values)),
        ) == Option::Some(Option::Some(AllowedValuesView::List(values))),
{
    lemma_merge_value_lists_absorbed(values, values);
}

/// Send-events monotonicity, preservation half: a merged state variable
/// that already emits change notifications keeps doing so through the
/// merge of any further model's variable.
pub proof fn lemma_send_events_preserved(
    vars: Seq<StateVariableView>,
    var: StateVariableView,
    j: int,
)
    requires
        spec_merge_state_var(vars, var) is Some,
        0 <= j < vars.len(),
        vars[j].send_events,
    ensures
        ({
            let r = spec_merge_state_var(vars, var).unwrap();
            &&& r.len() >= vars.len()
            &&& r[j].send_events
        }),
{
    lemma_index_of_var(vars, var.name);
}

/// Send-events monotonicity, seeding half: a model's variable that emits
/// change notifications leaves the merged variable of its name emitting,
/// whether the name was already present or not.
pub proof fn lemma_send_events_set(vars: Seq<StateVariableView>, var: StateVariableView)
    requires
        spec_merge_state_var(vars, var) is Some,
        var.send_events,
    ensures
        ({
            let r = spec_merge_state_var(vars, var).unwrap();
            let j = index_of_var(vars, var.name);
            &&& (j == -1 ==> r[vars.len() as int].send_events)
            &&& (j != -1 ==> r[j].send_events)
        }),
{
    lemma_index_of_var(vars, var.name);
}

/// Send-events monotonicity across a whole model: a merged state variable
/// that emits change notifications still emits after every state variable
/// of a further model has been folded in, whatever their flags.
pub proof fn lemma_send_events_monotone_fold(
    vars: Seq<StateVariableView>,
    news: Seq<StateVariableView>,
    j: int,
)
    requires
        fold_state_vars(vars, news) is Some,
        0 <= j < vars.len(),
        vars[j].send_events,
    ensures
        ({
            let r = fold_state_vars(vars, news).unwrap();
            &&& r.len() >= vars.len()
            &&& r[j].send_events
        }),
    decreases news.len(),
{
    if news.len() > 0 {
        let vars2 = spec_merge_state_var(vars, news[0]).unwrap();
        lemma_send_events_preserved(vars, news[0], j);
        lemma_send_events_monotone_fold(vars2, news.drop_first(), j);
    }
}

/// Determinism: the merged schema is a function of the ordered descriptor
/// collection alone. Two runs over collections that list equal models in
/// the same order yield the same schema, or fail alike.
pub proof fn lemma_unify_deterministic(
    models1: Seq<ModelDescriptorView>,
    models2: Seq<ModelDescriptorView>,
)
    requires
        models1.len() == models2.len(),
        forall|i: int| 0 <= i < models1.len() ==> models1[i] == models2[i],
    ensures
        spec_unify(models1) == spec_unify(models2),
{
    assert(models1 =~= models2);
}

/// Determinism over reordering: a collection of models with a strictly
/// increasing arrangement of their identifiers, under any one strict
/// total order, has exactly one such arrangement. Two collections that
/// hold the same models, each so arranged, are the same sequence, and
/// unification yields the same merged schema for both.
pub proof fn lemma_unify_order_canonical(
    models1: Seq<ModelDescriptorView>,
    models2: Seq<ModelDescriptorView>,
    lt: spec_fn(Seq<char>, Seq<char>) -> bool,
)
    requires
        forall|a: Seq<char>, b: Seq<char>| #[trigger] lt(a, b) ==> !lt(b, a),
        forall|a: Seq<char>, b: Seq<char>| a != b ==> #[trigger] lt(a, b) || lt(b, a),
        forall|i: int, j: int| 0 <= i < j < models1.len()
            ==> #[trigger] lt(models1[i].model, models1[j].model),
        forall|i: int, j: int| 0 <= i < j < models2.len()
            ==> #[trigger] lt(models2[i].model, models2[j].model),
        models1.to_multiset() == models2.to_multiset(),
    ensures
        models1 == models2,
        spec_unify(models1) == spec_unify(models2),
    decreases models1.len(),
{
    models1.to_multiset_ensures();
    models2.to_multiset_ensures();
    if models1.len() == 0 {
        assert(models2.len() == 0);
        assert(models1 =~= models2);
    } else {
        assert(models2.len() == models1.len());
        let h1 = models1[0];
        let h2 = models2[0];
        assert(models1.contains(h1));
        assert(models1.to_multiset().count(h1) > 0);
        assert(models2.contains(h1));
        assert(models2.to_multiset().count(h2) > 0);
        assert(models1.contains(h2));
        if h1 != h2 {
            let k = choose|k: int| 0 <= k < models2.len() && models2[k] == h1;
            assert(k != 0);
            assert(lt(h2.model, h1.model));
            let j = choose|j: int| 0 <= j < models1.len() && models1[j] == h2;
            assert(j != 0);
            assert(lt(h1.model, h2.model));
            assert(false);
        }
        let t1 = models1.drop_first();
        let t2 = models2.drop_first();
        assert(t1 =~= models1.remove(0));
        assert(t2 =~= models2.remove(0));
        assert(t1.to_multiset() == models1.to_multiset().remove(h1));
        assert(t2.to_multiset() == models2.to_multiset().remove(h2));
        assert forall|i: int, j: int| 0 <= i < j < t1.len() implies #[trigger] lt(
            t1[i].model,
            t1[j].model,
        ) by {
            assert(t1[i] == models1[i + 1]);
            assert(t1[j] == models1[j + 1]);
        }
        assert forall|i: int, j: int| 0 <= i < j < t2.len() implies #[trigger] lt(
            t2[i].model,
            t2[j].model,
        ) by {
            assert(t2[i] == models2[i + 1]);
            assert(t2[j] == models2[j + 1]);
        }
        lemma_unify_order_canonical(t1, t2, lt);
        assert forall|i: int| 0 <= i < models1.len() implies models1[i] == models2[i] by {
            if i > 0 {
                assert(models1[i] == t1[i - 1]);
                assert(models2[i] == t2[i - 1]);
            }
        }
        assert(models1 =~= models2);
    }
}

} // verus!
