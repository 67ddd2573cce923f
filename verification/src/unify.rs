//! The cross-model unification core: positional parameter alignment with
//! optionality inference, and enumerated allowed-value merging.
//!
//! A conflict is fatal: every function here reports it as an error and the
//! caller abandons the whole run; no partial merge is usable afterwards.

use vstd::prelude::*;

use crate::merged::ServiceInfo;
use crate::merged::ServiceInfoView;
use crate::merged::UnifyError;
use crate::merged::UnifyErrorView;
use crate::merged::VersionedAction;
use crate::merged::VersionedActionView;
use crate::merged::VersionedParameter;
use crate::merged::VersionedParameterView;
use crate::merged::VersionedService;
use crate::merged::VersionedServiceView;
use crate::schema::ActionDescriptor;
use crate::schema::ActionDescriptorView;
use crate::schema::AllowedValues;
use crate::schema::AllowedValuesView;
use crate::schema::ModelDescriptor;
use crate::schema::ModelDescriptorView;
use crate::schema::opt_allowed_view;
use crate::schema::Parameter;
use crate::schema::ParameterView;
use crate::schema::ServiceDescriptor;
use crate::schema::ServiceDescriptorView;
use crate::schema::StateVariable;
use crate::schema::StateVariableView;

verus! {

/// The images of the elements of a sequence.
pub open spec fn views_of<T: View>(v: Seq<T>) -> Seq<T::V> {
    v.map_values(|x: T| x@)
}

/// One step of the allowed-value union: the value joins the list unless an
/// equal value is already present.
pub open spec fn merge_value_step(target: Seq<Seq<char>>, value: Seq<char>) -> Seq<Seq<char>> {
    if target.contains(value) {
        target
    } else {
        target.push(value)
    }
}

/// Union of two allowed-value lists: the target's order is kept and each
/// source value not already present is appended, in source order.
pub open spec fn merge_value_lists(target: Seq<Seq<char>>, source: Seq<Seq<char>>) -> Seq<
    Seq<char>,
>
    decreases source.len(),
{
    if source.len() == 0 {
        target
    } else {
        merge_value_lists(merge_value_step(target, source[0]), source.drop_first())
    }
}

/// What merging two optional enumerated constraints yields: `None` when the
/// two shapes cannot be reconciled, otherwise the merged constraint.
pub open spec fn spec_merge_allowed(
    target: Option<AllowedValuesView>,
    source: Option<AllowedValuesView>,
) -> Option<Option<AllowedValuesView>> {
    match (target, source) {
        (Option::None, Option::None) => Option::Some(Option::None),
        (Option::Some(t), Option::Some(s)) => match (t, s) {
            (AllowedValuesView::List(tv), AllowedValuesView::List(sv)) => Option::Some(
                Option::Some(AllowedValuesView::List(merge_value_lists(tv, sv))),
            ),
            (a, b) => if a == b {
                Option::Some(Option::Some(a))
            } else {
                Option::None
            },
        },
        _ => Option::None,
    }
}

/// Marker for an irreconcilable pair of allowed-value constraints.
#[derive(Debug)]
pub struct AllowedValueMismatch {}

/// Does a list of strings hold this value?
fn contains_string(items: &Vec<String>, value: &String) -> (r: bool)
    ensures
        r == views_of(items@).contains(value@),
{
    let mut i: usize = 0;
    while i < items.len()
        invariant
            i <= items.len(),
            forall|j: int| 0 <= j < i ==> views_of(items@)[j] != value@,
        decreases items.len() - i,
    {
        if items[i].eq(value) {
            assert(views_of(items@)[i as int] == value@);
            return true;
        }
        i = i + 1;
    }
    assert(forall|j: int| 0 <= j < items@.len() ==> views_of(items@)[j] != value@);
    false
}

/// Merge two optional enumerated constraints attached to the same logical
/// state variable, in place on the target.
///
/// Both absent: the target stays absent. Both lists: the union, keeping the
/// target's order and appending unseen source values. Both the same scalar:
/// unchanged. Any other combination is irreconcilable: the target is left
/// as it was and the mismatch is reported.
pub fn merge_allowed_values(
    target: &mut Option<AllowedValues>,
    source: &Option<AllowedValues>,
) -> (r: Result<(), AllowedValueMismatch>)
    ensures
        match spec_merge_allowed(opt_allowed_view(*old(target)), opt_allowed_view(*source)) {
            Option::Some(m) => r is Ok && opt_allowed_view(*final(target)) == m,
            Option::None => r is Err && *final(target) == *old(target),
        },
{
    let taken = target.take();
    match taken {
        Option::None => {
            match source {
                Option::None => Result::Ok(()),
                Option::Some(_) => Result::Err(AllowedValueMismatch {}),
            }
        },
        Option::Some(AllowedValues::List(mut tv)) => {
            match source {
                Option::Some(AllowedValues::List(sv)) => {
                    let ghost orig: Seq<Seq<char>> = views_of(tv@);
                    let ghost src: Seq<Seq<char>> = views_of(sv@);
                    proof {
                        assert(src.skip(0) =~= src);
                    }
                    let mut j: usize = 0;
                    while j < sv.len()
                        invariant
                            j <= sv.len(),
                            src == views_of(sv@),
                            merge_value_lists(views_of(tv@), src.skip(j as int))
                                == merge_value_lists(orig, src),
                        decreases sv.len() - j,
                    {
                        let ghost before: Seq<Seq<char>> = views_of(tv@);
                        if !contains_string(&tv, &sv[j]) {
                            tv.push(sv[j].clone());
                            proof {
                                assert(views_of(tv@) =~= before.push(src[j as int]));
                            }
                        }
                        proof {
                            assert(views_of(tv@) == merge_value_step(before, src[j as int]));
                            assert(src.skip(j as int).drop_first() =~= src.skip(j as int + 1));
                            assert(src.skip(j as int)[0] == src[j as int]);
                        }
                        j = j + 1;
                    }
                    proof {
                        assert(src.skip(sv@.len() as int) =~= Seq::<Seq<char>>::empty());
                        assert(merge_value_lists(views_of(tv@), src.skip(sv@.len() as int))
                            == views_of(tv@));
                    }
                    *target = Option::Some(AllowedValues::List(tv));
                    Result::Ok(())
                },
                _ => {
                    *target = Option::Some(AllowedValues::List(tv));
                    Result::Err(AllowedValueMismatch {})
                },
            }
        },
        Option::Some(AllowedValues::Scalar(ts)) => {
            match source {
                Option::Some(AllowedValues::Scalar(ss)) => {
                    let equal = ts == *ss;
                    *target = Option::Some(AllowedValues::Scalar(ts));
                    if equal {
                        Result::Ok(())
                    } else {
                        Result::Err(AllowedValueMismatch {})
                    }
                },
                _ => {
                    *target = Option::Some(AllowedValues::Scalar(ts));
                    Result::Err(AllowedValueMismatch {})
                },
            }
        },
    }
}

/// A freshly introduced unified parameter position: supported only by the
/// model that introduced it; optional exactly when the position extends an
/// action shape established earlier by some other model.
pub open spec fn new_position(
    param: ParameterView,
    model: Seq<char>,
    optional: bool,
) -> VersionedParameterView {
    VersionedParameterView { param, supported_by: seq![model], optional }
}

/// An existing position gains one supporting model.
pub open spec fn add_support(
    vp: VersionedParameterView,
    model: Seq<char>,
) -> VersionedParameterView {
    VersionedParameterView {
        param: vp.param,
        supported_by: vp.supported_by.push(model),
        optional: vp.optional,
    }
}

/// The unified list after the first `k` of the model's parameters have been
/// applied, ignoring conflicts: a shared position gains support, a position
/// past the end of the list is appended. Positions introduced by the very
/// first model to define the action (the baseline) are non-optional; ones
/// introduced by a later model are optional.
pub open spec fn applied_upto(
    target: Seq<VersionedParameterView>,
    source: Seq<ParameterView>,
    model: Seq<char>,
    k: int,
) -> Seq<VersionedParameterView>
    decreases k,
{
    if k <= 0 {
        target
    } else {
        let prev = applied_upto(target, source, model, k - 1);
        if k - 1 < prev.len() {
            prev.update(k - 1, add_support(prev[k - 1], model))
        } else {
            prev.push(new_position(source[k - 1], model, target.len() != 0))
        }
    }
}

/// The first shared position, from `i` on, where the unified list and the
/// model's list disagree about the parameter; `-1` when there is none.
pub open spec fn first_conflict_from(
    target: Seq<VersionedParameterView>,
    source: Seq<ParameterView>,
    i: int,
) -> int
    decreases source.len() - i,
{
    if i < 0 || i >= target.len() || i >= source.len() {
        -1
    } else if target[i].param != source[i] {
        i
    } else {
        first_conflict_from(target, source, i + 1)
    }
}

/// The first shared position where the two lists disagree; `-1` if none.
pub open spec fn first_conflict(
    target: Seq<VersionedParameterView>,
    source: Seq<ParameterView>,
) -> int {
    first_conflict_from(target, source, 0)
}

/// What applying one model's parameter list to the unified list yields:
/// `None` when a shared position disagrees, otherwise the updated list.
pub open spec fn spec_apply_parameter(
    target: Seq<VersionedParameterView>,
    source: Seq<ParameterView>,
    model: Seq<char>,
) -> Option<Seq<VersionedParameterView>> {
    if first_conflict(target, source) == -1 {
        Option::Some(applied_upto(target, source, model, source.len() as int))
    } else {
        Option::None
    }
}

/// `first_conflict_from` finds exactly the first disagreeing shared
/// position at or after `i`.
pub proof fn lemma_first_conflict_from(
    target: Seq<VersionedParameterView>,
    source: Seq<ParameterView>,
    i: int,
)
    requires
        0 <= i,
    ensures
        ({
            let r = first_conflict_from(target, source, i);
            &&& (r == -1 <==> forall|j: int|
                i <= j < target.len() && j < source.len() ==> target[j].param == source[j])
            &&& r != -1 ==> i <= r < target.len() && r < source.len()
                && target[r].param != source[r]
                && forall|j: int| i <= j < r ==> target[j].param == source[j]
        }),
    decreases source.len() - i,
{
    if i >= target.len() || i >= source.len() {
    } else if target[i].param != source[i] {
    } else {
        lemma_first_conflict_from(target, source, i + 1);
    }
}

/// Are these the same parameter? Two parameters are the same exactly when
/// both the name and the bound state-variable name match.
pub fn param_eq(a: &Parameter, b: &Parameter) -> (r: bool)
    ensures
        r == (a@ == b@),
{
    let names_match = a.name.eq(&b.name);
    let bindings_match = a.related_state_variable_name.eq(&b.related_state_variable_name);
    names_match && bindings_match
}

/// The support set of a position introduced by this model alone.
pub fn make_supported_set(model: &str) -> (r: Vec<String>)
    ensures
        views_of(r@) == seq![model@],
{
    let mut set_vec: Vec<String> = Vec::new();
    set_vec.push(model.to_owned());
    proof {
        assert(views_of(set_vec@) =~= seq![model@]);
    }
    set_vec
}

/// Apply one model's raw parameter list (an action's inputs or outputs) to
/// the unified list for the same, in place.
///
/// Each shared position must hold the very same parameter; it then gains
/// this model as a supporter. Positions past the end of the unified list
/// are appended, optional unless the unified list was empty on entry (the
/// baseline case). A disagreeing shared position is a fatal conflict: the
/// target is left as it stood just before the conflicting position and the
/// conflict is reported exactly.
///
/// Known limitation, kept deliberately: a model whose list is shorter than
/// the established shape leaves the trailing positions untouched, and
/// nothing beyond the supported-by sets records that this model does not
/// expose them. Interfaces are assumed to evolve by adding trailing
/// parameters only.
pub fn apply_parameter(
    target: &mut Vec<VersionedParameter>,
    source: &[Parameter],
    model: &str,
) -> (r: Result<(), UnifyError>)
    ensures
        match r {
            Result::Ok(()) => spec_apply_parameter(
                views_of(old(target)@),
                views_of(source@),
                model@,
            ) == Option::Some(views_of(final(target)@)),
            Result::Err(e) => {
                let c = first_conflict(views_of(old(target)@), views_of(source@));
                &&& spec_apply_parameter(views_of(old(target)@), views_of(source@), model@)
                    is None
                &&& 0 <= c < old(target)@.len() && c < source@.len()
                &&& e@ == (UnifyErrorView::ParameterConflict {
                    index: c,
                    existing: views_of(old(target)@)[c].param,
                    incoming: views_of(source@)[c],
                })
                &&& views_of(final(target)@)
                    == applied_upto(views_of(old(target)@), views_of(source@), model@, c)
            },
        },
{
    let ghost orig: Seq<VersionedParameterView> = views_of(target@);
    let ghost src: Seq<ParameterView> = views_of(source@);
    let was_empty = target.len() == 0;
    let mut idx: usize = 0;
    while idx < source.len()
        invariant
            idx <= source.len(),
            orig == views_of(old(target)@),
            src == views_of(source@),
            was_empty == (orig.len() == 0),
            views_of(target@) == applied_upto(orig, src, model@, idx as int),
            target@.len() == if idx <= orig.len() { orig.len() as int } else { idx as int },
            forall|i: int| 0 <= i < target@.len()
                ==> #[trigger] views_of(target@)[i].param
                    == if i < orig.len() { orig[i].param } else { src[i] },
            forall|j: int| 0 <= j < idx && j < orig.len() ==> orig[j].param == src[j],
        decreases source.len() - idx,
    {
        let ghost before: Seq<VersionedParameterView> = views_of(target@);
        if idx < target.len() {
            if param_eq(&target[idx].param, &source[idx]) {
                let supporter = model.to_owned();
                let ghost elem_before: VersionedParameterView = views_of(target@)[idx as int];
                target[idx].supported_by.push(supporter);
                proof {
                    assert(views_of(target@)[idx as int].supported_by
                        =~= elem_before.supported_by.push(model@));
                    assert(views_of(target@)[idx as int] == add_support(elem_before, model@));
                    assert(views_of(target@) =~= before.update(
                        idx as int,
                        add_support(elem_before, model@),
                    ));
                }
            } else {
                proof {
                    assert(views_of(target@)[idx as int].param != src[idx as int]);
                    assert(idx < orig.len());
                    assert(orig[idx as int].param != src[idx as int]);
                    lemma_first_conflict_from(orig, src, 0);
                    let c = first_conflict_from(orig, src, 0);
                    if c == -1 {
                        assert(orig[idx as int].param == src[idx as int]);
                    } else if c < idx as int {
                        assert(orig[c].param == src[c]);
                        assert(orig[c].param != src[c]);
                    } else if c > idx as int {
                        assert(orig[idx as int].param == src[idx as int]);
                    }
                    assert(first_conflict(orig, src) == idx as int);
                }
                let existing = target[idx].param.clone();
                let incoming = source[idx].clone();
                return Result::Err(UnifyError::ParameterConflict {
                    index: idx,
                    existing,
                    incoming,
                });
            }
        } else {
            let position = VersionedParameter {
                param: source[idx].clone(),
                supported_by: make_supported_set(model),
                optional: !was_empty,
            };
            target.push(position);
            proof {
                assert(views_of(target@) =~= before.push(
                    new_position(src[idx as int], model@, !was_empty),
                ));
            }
        }
        idx = idx + 1;
    }
    proof {
        lemma_first_conflict_from(orig, src, 0);
        assert(first_conflict(orig, src) == -1);
    }
    Result::Ok(())
}

/// The first state variable of this name; `-1` when none is present.
pub open spec fn index_of_var(vars: Seq<StateVariableView>, name: Seq<char>) -> int
    decreases vars.len(),
{
    if vars.len() == 0 {
        -1
    } else if vars[0].name == name {
        0
    } else {
        let r = index_of_var(vars.drop_first(), name);
        if r == -1 {
            -1
        } else {
            r + 1
        }
    }
}

/// The first unified action of this name; `-1` when none is present.
pub open spec fn index_of_action(actions: Seq<VersionedActionView>, name: Seq<char>) -> int
    decreases actions.len(),
{
    if actions.len() == 0 {
        -1
    } else if actions[0].name == name {
        0
    } else {
        let r = index_of_action(actions.drop_first(), name);
        if r == -1 {
            -1
        } else {
            r + 1
        }
    }
}

/// The first unified service of this name; `-1` when none is present.
pub open spec fn index_of_service(services: Seq<VersionedServiceView>, name: Seq<char>) -> int
    decreases services.len(),
{
    if services.len() == 0 {
        -1
    } else if services[0].info.name == name {
        0
    } else {
        let r = index_of_service(services.drop_first(), name);
        if r == -1 {
            -1
        } else {
            r + 1
        }
    }
}

/// `index_of_var` finds exactly the first state variable of the name.
pub proof fn lemma_index_of_var(vars: Seq<StateVariableView>, name: Seq<char>)
    ensures
        ({
            let r = index_of_var(vars, name);
            &&& (r == -1 <==> forall|j: int| 0 <= j < vars.len() ==> vars[j].name != name)
            &&& r != -1 ==> 0 <= r < vars.len() && vars[r].name == name
                && forall|j: int| 0 <= j < r ==> vars[j].name != name
        }),
    decreases vars.len(),
{
    if vars.len() > 0 && vars[0].name != name {
        lemma_index_of_var(vars.drop_first(), name);
        assert forall|j: int| 1 <= j < vars.len() implies vars[j] == vars.drop_first()[j - 1] by {}
    }
}

/// `index_of_action` finds exactly the first action of the name.
pub proof fn lemma_index_of_action(actions: Seq<VersionedActionView>, name: Seq<char>)
    ensures
        ({
            let r = index_of_action(actions, name);
            &&& (r == -1 <==> forall|j: int| 0 <= j < actions.len() ==> actions[j].name != name)
            &&& r != -1 ==> 0 <= r < actions.len() && actions[r].name == name
                && forall|j: int| 0 <= j < r ==> actions[j].name != name
        }),
    decreases actions.len(),
{
    if actions.len() > 0 && actions[0].name != name {
        lemma_index_of_action(actions.drop_first(), name);
        assert forall|j: int| 1 <= j < actions.len() implies actions[j]
            == actions.drop_first()[j - 1] by {}
    }
}

/// `index_of_service` finds exactly the first service of the name.
pub proof fn lemma_index_of_service(services: Seq<VersionedServiceView>, name: Seq<char>)
    ensures
        ({
            let r = index_of_service(services, name);
            &&& (r == -1 <==> forall|j: int|
                0 <= j < services.len() ==> services[j].info.name != name)
            &&& r != -1 ==> 0 <= r < services.len() && services[r].info.name == name
                && forall|j: int| 0 <= j < r ==> services[j].info.name != name
        }),
    decreases services.len(),
{
    if services.len() > 0 && services[0].info.name != name {
        lemma_index_of_service(services.drop_first(), name);
        assert forall|j: int| 1 <= j < services.len() implies services[j]
            == services.drop_first()[j - 1] by {}
    }
}

/// What merging one model's state variable into the merged list yields: an
/// unseen variable joins as it is; a seen one keeps its first-seen name and
/// data type, ORs in the send-events flag, and merges the allowed values —
/// or the run dies on an irreconcilable constraint.
pub open spec fn spec_merge_state_var(
    vars: Seq<StateVariableView>,
    var: StateVariableView,
) -> Option<Seq<StateVariableView>> {
    let j = index_of_var(vars, var.name);
    if j == -1 {
        Option::Some(vars.push(var))
    } else {
        match spec_merge_allowed(vars[j].allowed_values, var.allowed_values) {
            Option::None => Option::None,
            Option::Some(av) => Option::Some(
                vars.update(
                    j,
                    StateVariableView {
                        name: vars[j].name,
                        data_type: vars[j].data_type,
                        allowed_values: av,
                        send_events: vars[j].send_events || var.send_events,
                    },
                ),
            ),
        }
    }
}

/// Fold a model's state variables into the merged list, in order.
pub open spec fn fold_state_vars(
    vars: Seq<StateVariableView>,
    news: Seq<StateVariableView>,
) -> Option<Seq<StateVariableView>>
    decreases news.len(),
{
    if news.len() == 0 {
        Option::Some(vars)
    } else {
        match spec_merge_state_var(vars, news[0]) {
            Option::None => Option::None,
            Option::Some(vars2) => fold_state_vars(vars2, news.drop_first()),
        }
    }
}

/// What merging one model's action into the unified list yields: an unseen
/// action is seeded empty, then the model's input and output lists are
/// applied positionally.
pub open spec fn spec_merge_action(
    actions: Seq<VersionedActionView>,
    action: ActionDescriptorView,
    model: Seq<char>,
) -> Option<Seq<VersionedActionView>> {
    let j0 = index_of_action(actions, action.name);
    let acts = if j0 == -1 {
        actions.push(
            VersionedActionView {
                name: action.name,
                inputs: Seq::empty(),
                outputs: Seq::empty(),
            },
        )
    } else {
        actions
    };
    let j = if j0 == -1 {
        actions.len() as int
    } else {
        j0
    };
    match spec_apply_parameter(acts[j].inputs, action.inputs, model) {
        Option::None => Option::None,
        Option::Some(ins) => match spec_apply_parameter(acts[j].outputs, action.outputs, model) {
            Option::None => Option::None,
            Option::Some(outs) => Option::Some(
                acts.update(
                    j,
                    VersionedActionView { name: acts[j].name, inputs: ins, outputs: outs },
                ),
            ),
        },
    }
}

/// Fold a model's actions into the unified list, in order.
pub open spec fn fold_actions(
    actions: Seq<VersionedActionView>,
    news: Seq<ActionDescriptorView>,
    model: Seq<char>,
) -> Option<Seq<VersionedActionView>>
    decreases news.len(),
{
    if news.len() == 0 {
        Option::Some(actions)
    } else {
        match spec_merge_action(actions, news[0], model) {
            Option::None => Option::None,
            Option::Some(acts2) => fold_actions(acts2, news.drop_first(), model),
        }
    }
}

/// What merging one model's service description into the merged schema
/// yields: a service name seen for the first time seeds a unified service
/// with that model's shape metadata and empty maps (first writer wins for
/// the shape); then the model's state variables and actions are folded in.
pub open spec fn spec_merge_service(
    services: Seq<VersionedServiceView>,
    svc: ServiceDescriptorView,
    model: Seq<char>,
) -> Option<Seq<VersionedServiceView>> {
    let j0 = index_of_service(services, svc.name);
    let svcs = if j0 == -1 {
        services.push(
            VersionedServiceView {
                info: ServiceInfoView { name: svc.name, service_type: svc.service_type },
                state_variables: Seq::empty(),
                actions: Seq::empty(),
            },
        )
    } else {
        services
    };
    let j = if j0 == -1 {
        services.len() as int
    } else {
        j0
    };
    match fold_state_vars(svcs[j].state_variables, svc.state_variables) {
        Option::None => Option::None,
        Option::Some(vars) => match fold_actions(svcs[j].actions, svc.actions, model) {
            Option::None => Option::None,
            Option::Some(acts) => Option::Some(
                svcs.update(
                    j,
                    VersionedServiceView {
                        info: svcs[j].info,
                        state_variables: vars,
                        actions: acts,
                    },
                ),
            ),
        },
    }
}

/// Fold one model's services into the merged schema, in order.
pub open spec fn fold_services(
    services: Seq<VersionedServiceView>,
    news: Seq<ServiceDescriptorView>,
    model: Seq<char>,
) -> Option<Seq<VersionedServiceView>>
    decreases news.len(),
{
    if news.len() == 0 {
        Option::Some(services)
    } else {
        match spec_merge_service(services, news[0], model) {
            Option::None => Option::None,
            Option::Some(svcs2) => fold_services(svcs2, news.drop_first(), model),
        }
    }
}

/// Fold whole models into the merged schema, in the order given.
pub open spec fn fold_models(
    services: Seq<VersionedServiceView>,
    models: Seq<ModelDescriptorView>,
) -> Option<Seq<VersionedServiceView>>
    decreases models.len(),
{
    if models.len() == 0 {
        Option::Some(services)
    } else {
        match fold_services(services, models[0].services, models[0].model) {
            Option::None => Option::None,
            Option::Some(svcs2) => fold_models(svcs2, models.drop_first()),
        }
    }
}

/// The merged schema of an ordered collection of models: the fold of every
/// model, in order, into an initially empty schema; `None` when any step
/// hits an irreconcilable conflict.
pub open spec fn spec_unify(models: Seq<ModelDescriptorView>) -> Option<
    Seq<VersionedServiceView>,
> {
    fold_models(Seq::empty(), models)
}


/// The index of the first state variable of this name, if any.
pub(crate) fn find_state_var(vars: &Vec<StateVariable>, name: &String) -> (r: Option<usize>)
    ensures
        match r {
            Option::Some(i) => i as int == index_of_var(views_of(vars@), name@),
            Option::None => index_of_var(views_of(vars@), name@) == -1,
        },
{
    let mut i: usize = 0;
    while i < vars.len()
        invariant
            i <= vars.len(),
            forall|j: int| 0 <= j < i ==> views_of(vars@)[j].name != name@,
        decreases vars.len() - i,
    {
        if vars[i].name.eq(name) {
            proof {
                lemma_index_of_var(views_of(vars@), name@);
                assert(views_of(vars@)[i as int].name == name@);
            }
            return Option::Some(i);
        }
        i = i + 1;
    }
    proof {
        lemma_index_of_var(views_of(vars@), name@);
    }
    Option::None
}

/// The index of the first unified action of this name, if any.
pub(crate) fn find_action(actions: &Vec<VersionedAction>, name: &String) -> (r: Option<usize>)
    ensures
        match r {
            Option::Some(i) => i as int == index_of_action(views_of(actions@), name@),
            Option::None => index_of_action(views_of(actions@), name@) == -1,
        },
{
    let mut i: usize = 0;
    while i < actions.len()
        invariant
            i <= actions.len(),
            forall|j: int| 0 <= j < i ==> views_of(actions@)[j].name != name@,
        decreases actions.len() - i,
    {
        if actions[i].name.eq(name) {
            proof {
                lemma_index_of_action(views_of(actions@), name@);
                assert(views_of(actions@)[i as int].name == name@);
            }
            return Option::Some(i);
        }
        i = i + 1;
    }
    proof {
        lemma_index_of_action(views_of(actions@), name@);
    }
    Option::None
}

/// The index of the first unified service of this name, if any.
pub(crate) fn find_service(services: &Vec<VersionedService>, name: &String) -> (r: Option<usize>)
    ensures
        match r {
            Option::Some(i) => i as int == index_of_service(views_of(services@), name@),
            Option::None => index_of_service(views_of(services@), name@) == -1,
        },
{
    let mut i: usize = 0;
    while i < services.len()
        invariant
            i <= services.len(),
            forall|j: int| 0 <= j < i ==> views_of(services@)[j].info.name != name@,
        decreases services.len() - i,
    {
        if services[i].info.name.eq(name) {
            proof {
                lemma_index_of_service(views_of(services@), name@);
                assert(views_of(services@)[i as int].info.name == name@);
            }
            return Option::Some(i);
        }
        i = i + 1;
    }
    proof {
        lemma_index_of_service(views_of(services@), name@);
    }
    Option::None
}

/// Merge one model's state variable into the merged list, in place. On a
/// constraint conflict the list is left as it was and the conflict is
/// reported with the variable's name.
pub fn merge_state_var(vars: &mut Vec<StateVariable>, var: &StateVariable) -> (r: Result<
    (),
    UnifyError,
>)
    ensures
        match r {
            Result::Ok(()) => spec_merge_state_var(views_of(old(vars)@), var@)
                == Option::Some(views_of(final(vars)@)),
            Result::Err(e) => {
                &&& spec_merge_state_var(views_of(old(vars)@), var@) is None
                &&& views_of(final(vars)@) == views_of(old(vars)@)
                &&& e@ == (UnifyErrorView::AllowedValueConflict { variable: var@.name })
            },
        },
{
    let ghost orig: Seq<StateVariableView> = views_of(vars@);
    match find_state_var(vars, &var.name) {
        Option::None => {
            vars.push(var.clone());
            proof {
                assert(views_of(vars@) =~= orig.push(var@));
            }
            Result::Ok(())
        },
        Option::Some(k) => {
            proof {
                lemma_index_of_var(orig, var@.name);
            }
            let mut sv = vars.remove(k);
            let merge_result = merge_allowed_values(&mut sv.allowed_values, &var.allowed_values);
            match merge_result {
                Result::Ok(()) => {
                    sv.send_events = sv.send_events || var.send_events;
                    vars.insert(k, sv);
                    proof {
                        assert(views_of(vars@) =~= orig.update(
                            k as int,
                            StateVariableView {
                                name: orig[k as int].name,
                                data_type: orig[k as int].data_type,
                                allowed_values: opt_allowed_view(sv.allowed_values),
                                send_events: orig[k as int].send_events || var@.send_events,
                            },
                        ));
                    }
                    Result::Ok(())
                },
                Result::Err(_) => {
                    vars.insert(k, sv);
                    proof {
                        assert(views_of(vars@) =~= orig);
                    }
                    Result::Err(UnifyError::AllowedValueConflict { variable: var.name.clone() })
                },
            }
        },
    }
}

/// Fold one model's state variables into the merged list, in order.
fn fold_vars_into(vars: &mut Vec<StateVariable>, news: &Vec<StateVariable>) -> (r: Result<
    (),
    UnifyError,
>)
    ensures
        match r {
            Result::Ok(()) => fold_state_vars(views_of(old(vars)@), views_of(news@))
                == Option::Some(views_of(final(vars)@)),
            Result::Err(e) => {
                &&& fold_state_vars(views_of(old(vars)@), views_of(news@)) is None
                &&& e@ is AllowedValueConflict
            },
        },
{
    let ghost orig: Seq<StateVariableView> = views_of(vars@);
    let ghost ns: Seq<StateVariableView> = views_of(news@);
    proof {
        assert(ns.skip(0) =~= ns);
    }
    let mut i: usize = 0;
    while i < news.len()
        invariant
            i <= news.len(),
            orig == views_of(old(vars)@),
            ns == views_of(news@),
            fold_state_vars(views_of(vars@), ns.skip(i as int)) == fold_state_vars(orig, ns),
        decreases news.len() - i,
    {
        let step = merge_state_var(vars, &news[i]);
        proof {
            assert(ns.skip(i as int)[0] == ns[i as int]);
            assert(ns.skip(i as int).drop_first() =~= ns.skip(i as int + 1));
        }
        match step {
            Result::Err(e) => {
                return Result::Err(e);
            },
            Result::Ok(()) => {},
        }
        i = i + 1;
    }
    proof {
        assert(ns.skip(news@.len() as int) =~= Seq::<StateVariableView>::empty());
    }
    Result::Ok(())
}

/// Merge one model's action into the unified action list, in place: seed
/// an unseen action empty, then apply the model's inputs and outputs
/// positionally. A position conflict is fatal and reported as found.
pub fn merge_action_into(
    actions: &mut Vec<VersionedAction>,
    action: &ActionDescriptor,
    model: &str,
) -> (r: Result<(), UnifyError>)
    ensures
        match r {
            Result::Ok(()) => spec_merge_action(views_of(old(actions)@), action@, model@)
                == Option::Some(views_of(final(actions)@)),
            Result::Err(e) => {
                &&& spec_merge_action(views_of(old(actions)@), action@, model@) is None
                &&& e@ is ParameterConflict
            },
        },
{
    let ghost orig: Seq<VersionedActionView> = views_of(actions@);
    let k: usize = match find_action(actions, &action.name) {
        Option::Some(k) => k,
        Option::None => {
            let seeded = VersionedAction {
                name: action.name.clone(),
                inputs: Vec::new(),
                outputs: Vec::new(),
            };
            proof {
                assert(seeded@.inputs =~= Seq::<VersionedParameterView>::empty());
                assert(seeded@.outputs =~= Seq::<VersionedParameterView>::empty());
            }
            actions.push(seeded);
            proof {
                assert(views_of(actions@) =~= orig.push(
                    VersionedActionView {
                        name: action@.name,
                        inputs: Seq::empty(),
                        outputs: Seq::empty(),
                    },
                ));
            }
            actions.len() - 1
        },
    };
    proof {
        lemma_index_of_action(orig, action@.name);
    }
    let ghost acts: Seq<VersionedActionView> = views_of(actions@);
    let mut act = actions.remove(k);
    let inputs_result = apply_parameter(&mut act.inputs, action.inputs.as_slice(), model);
    match inputs_result {
        Result::Err(e) => {
            actions.insert(k, act);
            return Result::Err(e);
        },
        Result::Ok(()) => {},
    }
    let outputs_result = apply_parameter(&mut act.outputs, action.outputs.as_slice(), model);
    match outputs_result {
        Result::Err(e) => {
            actions.insert(k, act);
            return Result::Err(e);
        },
        Result::Ok(()) => {},
    }
    actions.insert(k, act);
    proof {
        assert(views_of(actions@) =~= acts.update(
            k as int,
            VersionedActionView {
                name: acts[k as int].name,
                inputs: views_of(act.inputs@),
                outputs: views_of(act.outputs@),
            },
        ));
    }
    Result::Ok(())
}

/// Fold one model's actions into the unified list, in order.
fn fold_actions_into(
    actions: &mut Vec<VersionedAction>,
    news: &Vec<ActionDescriptor>,
    model: &str,
) -> (r: Result<(), UnifyError>)
    ensures
        match r {
            Result::Ok(()) => fold_actions(views_of(old(actions)@), views_of(news@), model@)
                == Option::Some(views_of(final(actions)@)),
            Result::Err(e) => {
                &&& fold_actions(views_of(old(actions)@), views_of(news@), model@) is None
                &&& e@ is ParameterConflict
            },
        },
{
    let ghost orig: Seq<VersionedActionView> = views_of(actions@);
    let ghost ns: Seq<ActionDescriptorView> = views_of(news@);
    proof {
        assert(ns.skip(0) =~= ns);
    }
    let mut i: usize = 0;
    while i < news.len()
        invariant
            i <= news.len(),
            orig == views_of(old(actions)@),
            ns == views_of(news@),
            fold_actions(views_of(actions@), ns.skip(i as int), model@)
                == fold_actions(orig, ns, model@),
        decreases news.len() - i,
    {
        let step = merge_action_into(actions, &news[i], model);
        proof {
            assert(ns.skip(i as int)[0] == ns[i as int]);
            assert(ns.skip(i as int).drop_first() =~= ns.skip(i as int + 1));
        }
        match step {
            Result::Err(e) => {
                return Result::Err(e);
            },
            Result::Ok(()) => {},
        }
        i = i + 1;
    }
    proof {
        assert(ns.skip(news@.len() as int) =~= Seq::<ActionDescriptorView>::empty());
    }
    Result::Ok(())
}

/// Merge one model's service description into the merged schema, in place:
/// seed a first-seen service from this model's shape metadata, then fold
/// in its state variables and actions.
pub fn merge_service_into(
    services: &mut Vec<VersionedService>,
    svc: &ServiceDescriptor,
    model: &str,
) -> (r: Result<(), UnifyError>)
    ensures
        match r {
            Result::Ok(()) => spec_merge_service(views_of(old(services)@), svc@, model@)
                == Option::Some(views_of(final(services)@)),
            Result::Err(e) => {
                &&& spec_merge_service(views_of(old(services)@), svc@, model@) is None
                &&& (e@ is ParameterConflict || e@ is AllowedValueConflict)
            },
        },
{
    let ghost orig: Seq<VersionedServiceView> = views_of(services@);
    let k: usize = match find_service(services, &svc.name) {
        Option::Some(k) => k,
        Option::None => {
            let seeded = VersionedService {
                info: ServiceInfo {
                    name: svc.name.clone(),
                    service_type: svc.service_type.clone(),
                },
                state_variables: Vec::new(),
                actions: Vec::new(),
            };
            proof {
                assert(seeded@.state_variables =~= Seq::<StateVariableView>::empty());
                assert(seeded@.actions =~= Seq::<VersionedActionView>::empty());
            }
            services.push(seeded);
            proof {
                assert(views_of(services@) =~= orig.push(
                    VersionedServiceView {
                        info: ServiceInfoView {
                            name: svc@.name,
                            service_type: svc@.service_type,
                        },
                        state_variables: Seq::empty(),
                        actions: Seq::empty(),
                    },
                ));
            }
            services.len() - 1
        },
    };
    proof {
        lemma_index_of_service(orig, svc@.name);
    }
    let ghost svcs: Seq<VersionedServiceView> = views_of(services@);
    let mut entry = services.remove(k);
    let vars_result = fold_vars_into(&mut entry.state_variables, &svc.state_variables);
    match vars_result {
        Result::Err(e) => {
            services.insert(k, entry);
            return Result::Err(e);
        },
        Result::Ok(()) => {},
    }
    let actions_result = fold_actions_into(&mut entry.actions, &svc.actions, model);
    match actions_result {
        Result::Err(e) => {
            services.insert(k, entry);
            return Result::Err(e);
        },
        Result::Ok(()) => {},
    }
    services.insert(k, entry);
    proof {
        assert(views_of(services@) =~= svcs.update(
            k as int,
            VersionedServiceView {
                info: svcs[k as int].info,
                state_variables: views_of(entry.state_variables@),
                actions: views_of(entry.actions@),
            },
        ));
    }
    Result::Ok(())
}

/// Merge one whole model into the merged schema, in place: its services in
/// the order the model lists them.
pub fn merge_model_into(services: &mut Vec<VersionedService>, model: &ModelDescriptor) -> (r:
    Result<(), UnifyError>)
    ensures
        match r {
            Result::Ok(()) => fold_services(
                views_of(old(services)@),
                model@.services,
                model@.model,
            ) == Option::Some(views_of(final(services)@)),
            Result::Err(e) => {
                &&& fold_services(views_of(old(services)@), model@.services, model@.model)
                    is None
                &&& (e@ is ParameterConflict || e@ is AllowedValueConflict)
            },
        },
{
    let ghost orig: Seq<VersionedServiceView> = views_of(services@);
    let ghost ns: Seq<ServiceDescriptorView> = views_of(model.services@);
    proof {
        assert(ns.skip(0) =~= ns);
    }
    let mut i: usize = 0;
    while i < model.services.len()
        invariant
            i <= model.services.len(),
            orig == views_of(old(services)@),
            ns == views_of(model.services@),
            fold_services(views_of(services@), ns.skip(i as int), model.model@)
                == fold_services(orig, ns, model.model@),
        decreases model.services.len() - i,
    {
        let step = merge_service_into(services, &model.services[i], model.model.as_str());
        proof {
            assert(ns.skip(i as int)[0] == ns[i as int]);
            assert(ns.skip(i as int).drop_first() =~= ns.skip(i as int + 1));
        }
        match step {
            Result::Err(e) => {
                return Result::Err(e);
            },
            Result::Ok(()) => {},
        }
        i = i + 1;
    }
    proof {
        assert(ns.skip(model.services@.len() as int) =~= Seq::<ServiceDescriptorView>::empty());
    }
    Result::Ok(())
}

/// Produce the merged schema of an ordered collection of model
/// descriptors, or report the first irreconcilable conflict. There is no
/// partial or best-effort merge: on an error no schema is handed out.
pub fn unify(models: &Vec<ModelDescriptor>) -> (r: Result<Vec<VersionedService>, UnifyError>)
    ensures
        match r {
            Result::Ok(s) => spec_unify(views_of(models@)) == Option::Some(views_of(s@)),
            Result::Err(e) => {
                &&& spec_unify(views_of(models@)) is None
                &&& (e@ is ParameterConflict || e@ is AllowedValueConflict)
            },
        },
{
    let ghost mviews: Seq<ModelDescriptorView> = views_of(models@);
    let mut services: Vec<VersionedService> = Vec::new();
    proof {
        assert(mviews.skip(0) =~= mviews);
        assert(views_of(services@) =~= Seq::<VersionedServiceView>::empty());
    }
    let mut mi: usize = 0;
    while mi < models.len()
        invariant
            mi <= models.len(),
            mviews == views_of(models@),
            fold_models(views_of(services@), mviews.skip(mi as int)) == spec_unify(mviews),
        decreases models.len() - mi,
    {
        let step = merge_model_into(&mut services, &models[mi]);
        proof {
            assert(mviews.skip(mi as int)[0] == mviews[mi as int]);
            assert(mviews.skip(mi as int).drop_first() =~= mviews.skip(mi as int + 1));
        }
        match step {
            Result::Err(e) => {
                return Result::Err(e);
            },
            Result::Ok(()) => {},
        }
        mi = mi + 1;
    }
    proof {
        assert(mviews.skip(models@.len() as int) =~= Seq::<ModelDescriptorView>::empty());
    }
    Result::Ok(services)
}

} // verus!
