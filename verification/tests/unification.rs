use codegen::merged::UnifyError;
use codegen::schema::ActionDescriptor;
use codegen::schema::AllowedValues;
use codegen::schema::ModelDescriptor;
use codegen::schema::Parameter;
use codegen::schema::ServiceDescriptor;
use codegen::schema::StateVariable;
use codegen::unify::apply_parameter;
use codegen::unify::make_supported_set;
use codegen::unify::merge_allowed_values;
use codegen::unify::param_eq;
use codegen::unify::unify;

fn param(name: &str, var: &str) -> Parameter {
    Parameter {
        name: name.to_string(),
        related_state_variable_name: var.to_string(),
    }
}

fn variable(name: &str, data_type: &str, send_events: bool) -> StateVariable {
    StateVariable {
        name: name.to_string(),
        data_type: data_type.to_string(),
        allowed_values: None,
        send_events,
    }
}

fn model(id: &str, services: Vec<ServiceDescriptor>) -> ModelDescriptor {
    ModelDescriptor {
        model: id.to_string(),
        services,
    }
}

fn service(name: &str, vars: Vec<StateVariable>, actions: Vec<ActionDescriptor>) -> ServiceDescriptor {
    ServiceDescriptor {
        name: name.to_string(),
        service_type: format!("urn:schemas-test:service:{name}:1"),
        state_variables: vars,
        actions,
    }
}

fn action(name: &str, inputs: Vec<Parameter>, outputs: Vec<Parameter>) -> ActionDescriptor {
    ActionDescriptor {
        name: name.to_string(),
        inputs,
        outputs,
    }
}

fn strings(items: &[&str]) -> Vec<String> {
    items.iter().map(|s| s.to_string()).collect()
}

#[test]
fn round_trip_two_models_extend_action() {
    let a = model(
        "A",
        vec![service(
            "Control",
            vec![variable("VX", "string", false)],
            vec![action("Foo", vec![param("X", "VX")], vec![])],
        )],
    );
    let b = model(
        "B",
        vec![service(
            "Control",
            vec![variable("VX", "string", false)],
            vec![action("Foo", vec![param("X", "VX"), param("Y", "VX")], vec![])],
        )],
    );
    let merged = unify(&vec![a, b]).expect("models agree");
    assert_eq!(merged.len(), 1);
    let svc = &merged[0];
    assert_eq!(svc.info.name, "Control");
    assert_eq!(svc.actions.len(), 1);
    let foo = &svc.actions[0];
    assert_eq!(foo.name, "Foo");
    assert_eq!(foo.inputs.len(), 2);
    assert_eq!(foo.inputs[0].param.name, "X");
    assert!(!foo.inputs[0].optional);
    assert_eq!(foo.inputs[0].supported_by, strings(&["A", "B"]));
    assert_eq!(foo.inputs[1].param.name, "Y");
    assert!(foo.inputs[1].optional);
    assert_eq!(foo.inputs[1].supported_by, strings(&["B"]));
}

#[test]
fn conflicting_parameter_binding_is_fatal() {
    let a = model(
        "A",
        vec![service(
            "Control",
            vec![variable("V1", "string", false)],
            vec![action("Bar", vec![param("X", "V1")], vec![])],
        )],
    );
    let b = model(
        "B",
        vec![service(
            "Control",
            vec![variable("V2", "string", false)],
            vec![action("Bar", vec![param("X", "V2")], vec![])],
        )],
    );
    let err = unify(&vec![a, b]).expect_err("bindings disagree");
    match err {
        UnifyError::ParameterConflict { index, existing, incoming } => {
            assert_eq!(index, 0);
            assert_eq!(existing.related_state_variable_name, "V1");
            assert_eq!(incoming.related_state_variable_name, "V2");
        }
        other => panic!("expected a parameter conflict, got {}", discriminant_name(&other)),
    }
}

fn discriminant_name(e: &UnifyError) -> &'static str {
    match e {
        UnifyError::ParameterConflict { .. } => "ParameterConflict",
        UnifyError::AllowedValueConflict { .. } => "AllowedValueConflict",
        UnifyError::UnsupportedDataType { .. } => "UnsupportedDataType",
    }
}

#[test]
fn allowed_value_lists_union_in_first_seen_order() {
    let mut var_a = variable("Mode", "string", false);
    var_a.allowed_values = Some(AllowedValues::List(strings(&["A", "B"])));
    let mut var_b = variable("Mode", "string", false);
    var_b.allowed_values = Some(AllowedValues::List(strings(&["B", "C"])));
    let a = model("A", vec![service("Control", vec![var_a], vec![])]);
    let b = model("B", vec![service("Control", vec![var_b], vec![])]);
    let merged = unify(&vec![a, b]).expect("lists merge");
    let var = &merged[0].state_variables[0];
    match &var.allowed_values {
        Some(AllowedValues::List(values)) => assert_eq!(*values, strings(&["A", "B", "C"])),
        _ => panic!("expected a merged list"),
    }
}

#[test]
fn merging_a_list_into_itself_twice_changes_nothing() {
    let mut target = Some(AllowedValues::List(strings(&["On", "Off"])));
    let source = Some(AllowedValues::List(strings(&["On", "Off"])));
    merge_allowed_values(&mut target, &source).expect("identical lists merge");
    merge_allowed_values(&mut target, &source).expect("identical lists merge again");
    match target {
        Some(AllowedValues::List(values)) => assert_eq!(values, strings(&["On", "Off"])),
        _ => panic!("expected the list to survive"),
    }
}

#[test]
fn equal_scalars_merge_and_differing_scalars_are_fatal() {
    let mut target = Some(AllowedValues::Scalar("5".to_string()));
    merge_allowed_values(&mut target, &Some(AllowedValues::Scalar("5".to_string())))
        .expect("equal scalars merge");
    match &target {
        Some(AllowedValues::Scalar(s)) => assert_eq!(s, "5"),
        _ => panic!("expected the scalar to survive"),
    }
    let r = merge_allowed_values(&mut target, &Some(AllowedValues::Scalar("6".to_string())));
    assert!(r.is_err());
    let r = merge_allowed_values(&mut target, &None);
    assert!(r.is_err());
    let mut absent: Option<AllowedValues> = None;
    let r = merge_allowed_values(&mut absent, &Some(AllowedValues::Scalar("5".to_string())));
    assert!(r.is_err());
    let r = merge_allowed_values(&mut absent, &None);
    assert!(r.is_ok());
    assert!(absent.is_none());
}

#[test]
fn list_against_scalar_is_fatal_inside_unify() {
    let mut var_a = variable("Mode", "string", false);
    var_a.allowed_values = Some(AllowedValues::List(strings(&["A"])));
    let mut var_b = variable("Mode", "string", false);
    var_b.allowed_values = Some(AllowedValues::Scalar("A".to_string()));
    let a = model("A", vec![service("Control", vec![var_a], vec![])]);
    let b = model("B", vec![service("Control", vec![var_b], vec![])]);
    let err = unify(&vec![a, b]).expect_err("shapes disagree");
    match err {
        UnifyError::AllowedValueConflict { variable } => assert_eq!(variable, "Mode"),
        other => panic!("expected an allowed-value conflict, got {}", discriminant_name(&other)),
    }
}

#[test]
fn send_events_stays_set_once_any_model_sets_it() {
    let a = model("A", vec![service("Control", vec![variable("V", "string", true)], vec![])]);
    let b = model("B", vec![service("Control", vec![variable("V", "string", false)], vec![])]);
    let merged = unify(&vec![a, b]).expect("variables merge");
    assert!(merged[0].state_variables[0].send_events);

    let a = model("A", vec![service("Control", vec![variable("V", "string", false)], vec![])]);
    let b = model("B", vec![service("Control", vec![variable("V", "string", true)], vec![])]);
    let merged = unify(&vec![a, b]).expect("variables merge");
    assert!(merged[0].state_variables[0].send_events);

    let a = model("A", vec![service("Control", vec![variable("V", "string", false)], vec![])]);
    let b = model("B", vec![service("Control", vec![variable("V", "string", false)], vec![])]);
    let merged = unify(&vec![a, b]).expect("variables merge");
    assert!(!merged[0].state_variables[0].send_events);
}

#[test]
fn first_model_fixes_service_shape_metadata() {
    let mut svc_a = service("Control", vec![], vec![]);
    svc_a.service_type = "urn:first".to_string();
    let mut svc_b = service("Control", vec![], vec![]);
    svc_b.service_type = "urn:second".to_string();
    let a = model("A", vec![svc_a]);
    let b = model("B", vec![svc_b]);
    let merged = unify(&vec![a, b]).expect("shape is first-wins");
    assert_eq!(merged.len(), 1);
    assert_eq!(merged[0].info.service_type, "urn:first");
}

#[test]
fn unify_is_deterministic_for_the_same_ordered_input() {
    let build = || {
        vec![
            model(
                "A",
                vec![service(
                    "Control",
                    vec![variable("VX", "ui4", true)],
                    vec![action("Foo", vec![param("X", "VX")], vec![param("R", "VX")])],
                )],
            ),
            model(
                "B",
                vec![service(
                    "Control",
                    vec![variable("VX", "ui4", false)],
                    vec![action("Foo", vec![param("X", "VX"), param("Y", "VX")], vec![])],
                )],
            ),
        ]
    };
    let first = unify(&build()).expect("models agree");
    let second = unify(&build()).expect("models agree");
    assert_eq!(first.len(), second.len());
    for (s1, s2) in first.iter().zip(second.iter()) {
        assert_eq!(s1.info.name, s2.info.name);
        assert_eq!(s1.info.service_type, s2.info.service_type);
        assert_eq!(s1.actions.len(), s2.actions.len());
        for (a1, a2) in s1.actions.iter().zip(s2.actions.iter()) {
            assert_eq!(a1.name, a2.name);
            assert_eq!(a1.inputs.len(), a2.inputs.len());
            for (p1, p2) in a1.inputs.iter().zip(a2.inputs.iter()) {
                assert!(param_eq(&p1.param, &p2.param));
                assert_eq!(p1.optional, p2.optional);
                assert_eq!(p1.supported_by, p2.supported_by);
            }
        }
    }
}

#[test]
fn apply_parameter_baseline_and_extension() {
    let mut target = Vec::new();
    apply_parameter(&mut target, &[param("X", "V")], "A").expect("baseline applies");
    assert_eq!(target.len(), 1);
    assert!(!target[0].optional);
    assert_eq!(target[0].supported_by, strings(&["A"]));

    apply_parameter(&mut target, &[param("X", "V"), param("Y", "W")], "B").expect("extension applies");
    assert_eq!(target.len(), 2);
    assert!(!target[0].optional);
    assert_eq!(target[0].supported_by, strings(&["A", "B"]));
    assert!(target[1].optional);
    assert_eq!(target[1].supported_by, strings(&["B"]));

    let shorter = apply_parameter(&mut target, &[param("X", "V")], "C");
    assert!(shorter.is_ok());
    assert_eq!(target.len(), 2);
    assert_eq!(target[0].supported_by, strings(&["A", "B", "C"]));
    assert_eq!(target[1].supported_by, strings(&["B"]));

    let conflict = apply_parameter(&mut target, &[param("X", "OTHER")], "D");
    match conflict {
        Err(UnifyError::ParameterConflict { index, .. }) => assert_eq!(index, 0),
        _ => panic!("expected a conflict at the first position"),
    }
}

#[test]
fn baseline_is_per_action_not_per_model() {
    let a = model(
        "A",
        vec![service("Control", vec![], vec![action("Foo", vec![param("X", "V")], vec![])])],
    );
    let b = model(
        "B",
        vec![service("Control", vec![], vec![action("Bar", vec![param("Z", "W")], vec![])])],
    );
    let merged = unify(&vec![a, b]).expect("distinct actions merge");
    let actions = &merged[0].actions;
    assert_eq!(actions.len(), 2);
    let bar = actions.iter().find(|a| a.name == "Bar").expect("Bar is present");
    assert!(!bar.inputs[0].optional);
    assert_eq!(bar.inputs[0].supported_by, strings(&["B"]));
}

#[test]
fn make_supported_set_holds_the_one_model() {
    let set = make_supported_set("RINCON");
    assert_eq!(set, strings(&["RINCON"]));
}

#[test]
fn shorter_later_model_leaves_trailing_positions_untouched() {
    let a = model(
        "A",
        vec![service(
            "Control",
            vec![],
            vec![action("Foo", vec![param("X", "V"), param("Y", "W")], vec![])],
        )],
    );
    let b = model(
        "B",
        vec![service("Control", vec![], vec![action("Foo", vec![param("X", "V")], vec![])])],
    );
    let merged = unify(&vec![a, b]).expect("shorter model is tolerated");
    let foo = &merged[0].actions[0];
    assert_eq!(foo.inputs.len(), 2);
    assert_eq!(foo.inputs[0].supported_by, strings(&["A", "B"]));
    assert_eq!(foo.inputs[1].supported_by, strings(&["A"]));
    assert!(!foo.inputs[1].optional);
}
