//! Descriptor types for per-model capability descriptions.
//!
//! A model is one device/firmware variant; it exposes services, each with
//! state variables and actions. Descriptors are immutable inputs to the
//! unifier.

use vstd::prelude::*;

verus! {

/// A named reference to a state variable, used as an action input or output
/// slot. Two parameters are the same exactly when both the name and the
/// bound state-variable name match.
#[derive(Debug)]
pub struct Parameter {
    pub name: String,
    pub related_state_variable_name: String,
}

/// Mathematical image of a `Parameter`.
pub struct ParameterView {
    pub name: Seq<char>,
    pub related_state_variable_name: Seq<char>,
}

impl View for Parameter {
    type V = ParameterView;

    open spec fn view(&self) -> ParameterView {
        ParameterView {
            name: self.name@,
            related_state_variable_name: self.related_state_variable_name@,
        }
    }
}

/// An enumerated constraint attached to a state variable: either a list of
/// admissible values or a single scalar constraint held as its text.
#[derive(Debug)]
pub enum AllowedValues {
    List(Vec<String>),
    Scalar(String),
}

/// Mathematical image of an `AllowedValues`.
pub enum AllowedValuesView {
    List(Seq<Seq<char>>),
    Scalar(Seq<char>),
}

impl View for AllowedValues {
    type V = AllowedValuesView;

    open spec fn view(&self) -> AllowedValuesView {
        match self {
            AllowedValues::List(items) => AllowedValuesView::List(
                items@.map_values(|s: String| s@),
            ),
            AllowedValues::Scalar(s) => AllowedValuesView::Scalar(s@),
        }
    }
}

/// The image of an optional constraint.
pub open spec fn opt_allowed_view(o: Option<AllowedValues>) -> Option<AllowedValuesView> {
    match o {
        Option::None => Option::None,
        Option::Some(av) => Option::Some(av@),
    }
}

/// A typed, possibly enumerated, possibly change-notifying value exposed by
/// a service. `data_type` is an open tag; the resolver recognises a fixed
/// set of primitive tags.
#[derive(Debug)]
pub struct StateVariable {
    pub name: String,
    pub data_type: String,
    pub allowed_values: Option<AllowedValues>,
    pub send_events: bool,
}

/// Mathematical image of a `StateVariable`.
pub struct StateVariableView {
    pub name: Seq<char>,
    pub data_type: Seq<char>,
    pub allowed_values: Option<AllowedValuesView>,
    pub send_events: bool,
}

impl View for StateVariable {
    type V = StateVariableView;

    open spec fn view(&self) -> StateVariableView {
        StateVariableView {
            name: self.name@,
            data_type: self.data_type@,
            allowed_values: opt_allowed_view(self.allowed_values),
            send_events: self.send_events,
        }
    }
}

/// A remotely invocable operation: an ordered input parameter list and an
/// ordered output parameter list.
#[derive(Debug)]
pub struct ActionDescriptor {
    pub name: String,
    pub inputs: Vec<Parameter>,
    pub outputs: Vec<Parameter>,
}

/// Mathematical image of an `ActionDescriptor`.
pub struct ActionDescriptorView {
    pub name: Seq<char>,
    pub inputs: Seq<ParameterView>,
    pub outputs: Seq<ParameterView>,
}

impl View for ActionDescriptor {
    type V = ActionDescriptorView;

    open spec fn view(&self) -> ActionDescriptorView {
        ActionDescriptorView {
            name: self.name@,
            inputs: self.inputs@.map_values(|p: Parameter| p@),
            outputs: self.outputs@.map_values(|p: Parameter| p@),
        }
    }
}

/// One named service exposed by a model: a name, a URI-like type
/// identifier, state variables and actions.
#[derive(Debug)]
pub struct ServiceDescriptor {
    pub name: String,
    pub service_type: String,
    pub state_variables: Vec<StateVariable>,
    pub actions: Vec<ActionDescriptor>,
}

/// Mathematical image of a `ServiceDescriptor`.
pub struct ServiceDescriptorView {
    pub name: Seq<char>,
    pub service_type: Seq<char>,
    pub state_variables: Seq<StateVariableView>,
    pub actions: Seq<ActionDescriptorView>,
}

impl View for ServiceDescriptor {
    type V = ServiceDescriptorView;

    open spec fn view(&self) -> ServiceDescriptorView {
        ServiceDescriptorView {
            name: self.name@,
            service_type: self.service_type@,
            state_variables: self.state_variables@.map_values(|v: StateVariable| v@),
            actions: self.actions@.map_values(|a: ActionDescriptor| a@),
        }
    }
}

/// One device/firmware variant: an identifier and the services it exposes.
#[derive(Debug)]
pub struct ModelDescriptor {
    pub model: String,
    pub services: Vec<ServiceDescriptor>,
}

/// Mathematical image of a `ModelDescriptor`.
pub struct ModelDescriptorView {
    pub model: Seq<char>,
    pub services: Seq<ServiceDescriptorView>,
}

impl View for ModelDescriptor {
    type V = ModelDescriptorView;

    open spec fn view(&self) -> ModelDescriptorView {
        ModelDescriptorView {
            model: self.model@,
            services: self.services@.map_values(|s: ServiceDescriptor| s@),
        }
    }
}

} // verus!
