//! The merged schema: the result of folding every model's descriptors into
//! one view per service, with per-position support tracking and optionality.

use vstd::prelude::*;

use crate::schema::AllowedValues;
use crate::schema::Parameter;
use crate::schema::ParameterView;
use crate::schema::StateVariable;
use crate::schema::StateVariableView;

verus! {

impl Clone for Parameter {
    fn clone(&self) -> (r: Self)
        ensures
            r@ == self@,
    {
        Parameter {
            name: self.name.clone(),
            related_state_variable_name: self.related_state_variable_name.clone(),
        }
    }
}

impl Clone for AllowedValues {
    fn clone(&self) -> (r: Self)
        ensures
            r@ == self@,
    {
        match self {
            AllowedValues::List(items) => {
                let mut copied: Vec<String> = Vec::new();
                let mut i: usize = 0;
                while i < items.len()
                    invariant
                        i <= items.len(),
                        copied@ =~= items@.take(i as int),
                    decreases items.len() - i,
                {
                    copied.push(items[i].clone());
                    i = i + 1;
                }
                proof {
                    assert(copied@ =~= items@);
                }
                AllowedValues::List(copied)
            },
            AllowedValues::Scalar(s) => AllowedValues::Scalar(s.clone()),
        }
    }
}

impl Clone for StateVariable {
    fn clone(&self) -> (r: Self)
        ensures
            r@ == self@,
    {
        StateVariable {
            name: self.name.clone(),
            data_type: self.data_type.clone(),
            allowed_values: match &self.allowed_values {
                Option::Some(av) => Option::Some(av.clone()),
                Option::None => Option::None,
            },
            send_events: self.send_events,
        }
    }
}

/// Service shape metadata: the first model to define a service fixes it.
#[derive(Debug)]
pub struct ServiceInfo {
    pub name: String,
    pub service_type: String,
}

/// Mathematical image of a `ServiceInfo`.
pub struct ServiceInfoView {
    pub name: Seq<char>,
    pub service_type: Seq<char>,
}

impl View for ServiceInfo {
    type V = ServiceInfoView;

    open spec fn view(&self) -> ServiceInfoView {
        ServiceInfoView { name: self.name@, service_type: self.service_type@ }
    }
}

/// One position of a unified action's parameter list: the parameter itself,
/// the identifiers of the models whose own list reaches this position, and
/// whether the position was introduced after the action's baseline shape.
#[derive(Debug)]
pub struct VersionedParameter {
    pub param: Parameter,
    pub supported_by: Vec<String>,
    pub optional: bool,
}

/// Mathematical image of a `VersionedParameter`.
pub struct VersionedParameterView {
    pub param: ParameterView,
    pub supported_by: Seq<Seq<char>>,
    pub optional: bool,
}

impl View for VersionedParameter {
    type V = VersionedParameterView;

    open spec fn view(&self) -> VersionedParameterView {
        VersionedParameterView {
            param: self.param@,
            supported_by: self.supported_by@.map_values(|s: String| s@),
            optional: self.optional,
        }
    }
}

/// A unified action: ordered unified input and output parameter lists.
#[derive(Debug)]
pub struct VersionedAction {
    pub name: String,
    pub inputs: Vec<VersionedParameter>,
    pub outputs: Vec<VersionedParameter>,
}

/// Mathematical image of a `VersionedAction`.
pub struct VersionedActionView {
    pub name: Seq<char>,
    pub inputs: Seq<VersionedParameterView>,
    pub outputs: Seq<VersionedParameterView>,
}

impl View for VersionedAction {
    type V = VersionedActionView;

    open spec fn view(&self) -> VersionedActionView {
        VersionedActionView {
            name: self.name@,
            inputs: self.inputs@.map_values(|p: VersionedParameter| p@),
            outputs: self.outputs@.map_values(|p: VersionedParameter| p@),
        }
    }
}

/// A unified service: first-seen shape metadata, merged state variables
/// (keyed by name, first-seen order) and unified actions (keyed by name,
/// first-seen order).
#[derive(Debug)]
pub struct VersionedService {
    pub info: ServiceInfo,
    pub state_variables: Vec<StateVariable>,
    pub actions: Vec<VersionedAction>,
}

/// Mathematical image of a `VersionedService`.
pub struct VersionedServiceView {
    pub info: ServiceInfoView,
    pub state_variables: Seq<StateVariableView>,
    pub actions: Seq<VersionedActionView>,
}

impl View for VersionedService {
    type V = VersionedServiceView;

    open spec fn view(&self) -> VersionedServiceView {
        VersionedServiceView {
            info: self.info@,
            state_variables: self.state_variables@.map_values(|v: StateVariable| v@),
            actions: self.actions@.map_values(|a: VersionedAction| a@),
        }
    }
}

/// Why a unification run was abandoned. Any of these is fatal: no partial
/// merged schema is usable once one is reported.
#[derive(Debug)]
pub enum UnifyError {
    /// Two models bind different parameters to the same position of the
    /// same action's input or output list.
    ParameterConflict { index: usize, existing: Parameter, incoming: Parameter },
    /// A state variable's enumerated constraints cannot be reconciled
    /// (list against scalar, differing scalars, or present against absent).
    AllowedValueConflict { variable: String },
    /// A state variable's data-type tag is outside the recognised set.
    UnsupportedDataType { data_type: String },
}

/// Mathematical image of a `UnifyError`.
pub enum UnifyErrorView {
    ParameterConflict { index: int, existing: ParameterView, incoming: ParameterView },
    AllowedValueConflict { variable: Seq<char> },
    UnsupportedDataType { data_type: Seq<char> },
}

impl View for UnifyError {
    type V = UnifyErrorView;

    open spec fn view(&self) -> UnifyErrorView {
        match self {
            UnifyError::ParameterConflict { index, existing, incoming } =>
                UnifyErrorView::ParameterConflict {
                    index: *index as int,
                    existing: existing@,
                    incoming: incoming@,
                },
            UnifyError::AllowedValueConflict { variable } =>
                UnifyErrorView::AllowedValueConflict { variable: variable@ },
            UnifyError::UnsupportedDataType { data_type } =>
                UnifyErrorView::UnsupportedDataType { data_type: data_type@ },
        }
    }
}

} // verus!
