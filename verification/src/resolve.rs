//! The type resolver: maps a unified parameter to a target-language
//! primitive through its bound state variable, wrapping it in `Option<...>`
//! where optionality applies.

use vstd::prelude::*;
use vstd::string::StringExecFns;

use crate::merged::UnifyError;
use crate::merged::UnifyErrorView;
use crate::merged::VersionedParameter;
use crate::merged::VersionedParameterView;
use crate::merged::VersionedService;
use crate::merged::VersionedServiceView;
use crate::unify::index_of_var;
use crate::unify::lemma_index_of_var;
use crate::unify::views_of;

verus! {

/// The target primitive for a recognised data-type tag; `None` for a tag
/// outside the fixed recognised set.
pub open spec fn resolve_primitive(data_type: Seq<char>) -> Option<Seq<char>> {
    if data_type == "string"@ {
        Option::Some("String"@)
    } else if data_type == "ui4"@ {
        Option::Some("u32"@)
    } else if data_type == "ui2"@ {
        Option::Some("u16"@)
    } else if data_type == "i4"@ {
        Option::Some("i32"@)
    } else if data_type == "i2"@ {
        Option::Some("i16"@)
    } else if data_type == "boolean"@ {
        Option::Some("bool"@)
    } else {
        Option::None
    }
}

/// The rendered type of a unified parameter within a service: the primitive
/// of its bound state variable, the text type when the variable is absent
/// from the merged map, wrapped in `Option<...>` when the parameter is
/// optional or optionality is forced; `None` when the tag is unrecognised.
pub open spec fn spec_resolve_type(
    svc: VersionedServiceView,
    param: VersionedParameterView,
    always_optional: bool,
) -> Option<Seq<char>> {
    let j = index_of_var(svc.state_variables, param.param.related_state_variable_name);
    let base = if j == -1 {
        Option::Some("String"@)
    } else {
        resolve_primitive(svc.state_variables[j].data_type)
    };
    match base {
        Option::None => Option::None,
        Option::Some(t) => Option::Some(
            if param.optional || always_optional {
                "Option<"@ + t + ">"@
            } else {
                t
            },
        ),
    }
}

/// Do this string and this literal hold the same characters?
fn string_eq_lit(s: &String, lit: &str) -> (r: bool)
    ensures
        r == (s@ == lit@),
{
    let owned = lit.to_owned();
    s.eq(&owned)
}

impl VersionedService {
    /// Resolve the rendered type of a parameter of one of this service's
    /// actions. Outputs force optionality; inputs are optional only per the
    /// parameter's own flag. A parameter bound to a state variable missing
    /// from the merged map falls back to the text type; an unrecognised
    /// data-type tag is fatal.
    pub fn resolve_type_for_param(
        &self,
        param: &VersionedParameter,
        always_optional: bool,
    ) -> (r: Result<String, UnifyError>)
        ensures
            match r {
                Result::Ok(t) => spec_resolve_type(self@, param@, always_optional)
                    == Option::Some(t@),
                Result::Err(e) => {
                    let j = index_of_var(
                        self@.state_variables,
                        param@.param.related_state_variable_name,
                    );
                    &&& spec_resolve_type(self@, param@, always_optional) is None
                    &&& j != -1
                    &&& e@ == (UnifyErrorView::UnsupportedDataType {
                        data_type: self@.state_variables[j].data_type,
                    })
                },
            },
    {
        let found = crate::unify::find_state_var(
            &self.state_variables,
            &param.param.related_state_variable_name,
        );
        let base: String = match found {
            Option::None => "String".to_owned(),
            Option::Some(k) => {
                proof {
                    lemma_index_of_var(
                        views_of(self.state_variables@),
                        param@.param.related_state_variable_name,
                    );
                }
                let data_type = &self.state_variables[k].data_type;
                if string_eq_lit(data_type, "string") {
                    "String".to_owned()
                } else if string_eq_lit(data_type, "ui4") {
                    "u32".to_owned()
                } else if string_eq_lit(data_type, "ui2") {
                    "u16".to_owned()
                } else if string_eq_lit(data_type, "i4") {
                    "i32".to_owned()
                } else if string_eq_lit(data_type, "i2") {
                    "i16".to_owned()
                } else if string_eq_lit(data_type, "boolean") {
                    "bool".to_owned()
                } else {
                    return Result::Err(
                        UnifyError::UnsupportedDataType { data_type: data_type.clone() },
                    );
                }
            },
        };
        if param.optional || always_optional {
            let wrapped = "Option<".to_owned().concat(base.as_str()).concat(">");
            Result::Ok(wrapped)
        } else {
            Result::Ok(base)
        }
    }
}

} // verus!
