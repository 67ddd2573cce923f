//! The code emitter: renders the merged schema, plus an optional
//! documentation overlay, into the generated source text: request and
//! response records, capability traits, concrete implementations and a
//! prelude of re-exports.
//!
//! Emission is a pure function of the schema and the overlay; the only
//! failure is an unrecognised data-type tag met by the type resolver.

use vstd::prelude::*;
use vstd::string::StringExecFns;

use crate::merged::UnifyError;
use crate::merged::VersionedAction;
use crate::merged::VersionedActionView;
use crate::merged::VersionedParameterView;
use crate::merged::VersionedService;
use crate::merged::VersionedServiceView;
use crate::naming::pascal_of;
use crate::naming::spec_to_snake_case;
use crate::naming::to_pascal_case;
use crate::naming::to_snake_case;
use crate::resolve::spec_resolve_type;
use crate::unify::views_of;

verus! {

/// One parameter's documentation: the parameter's name and its text.
#[derive(Debug)]
pub struct ParamDoc {
    pub name: String,
    pub description: String,
}

/// Mathematical image of a `ParamDoc`.
pub struct ParamDocView {
    pub name: Seq<char>,
    pub description: Seq<char>,
}

impl View for ParamDoc {
    type V = ParamDocView;

    open spec fn view(&self) -> ParamDocView {
        ParamDocView { name: self.name@, description: self.description@ }
    }
}

/// One action's documentation: its text and its parameters' texts.
#[derive(Debug)]
pub struct ActionDocs {
    pub name: String,
    pub description: String,
    pub params: Vec<ParamDoc>,
}

/// Mathematical image of an `ActionDocs`.
pub struct ActionDocsView {
    pub name: Seq<char>,
    pub description: Seq<char>,
    pub params: Seq<ParamDocView>,
}

impl View for ActionDocs {
    type V = ActionDocsView;

    open spec fn view(&self) -> ActionDocsView {
        ActionDocsView {
            name: self.name@,
            description: self.description@,
            params: self.params@.map_values(|p: ParamDoc| p@),
        }
    }
}

/// One service's documentation, keyed by the overlay's service-interface
/// name: its text and its actions' documentation.
#[derive(Debug)]
pub struct ServiceDocs {
    pub name: String,
    pub description: String,
    pub actions: Vec<ActionDocs>,
}

/// Mathematical image of a `ServiceDocs`.
pub struct ServiceDocsView {
    pub name: Seq<char>,
    pub description: Seq<char>,
    pub actions: Seq<ActionDocsView>,
}

impl View for ServiceDocs {
    type V = ServiceDocsView;

    open spec fn view(&self) -> ServiceDocsView {
        ServiceDocsView {
            name: self.name@,
            description: self.description@,
            actions: self.actions@.map_values(|a: ActionDocs| a@),
        }
    }
}

/// The human-authored documentation overlay. Unmatched entries are
/// ignored; absent entries simply leave the output undocumented.
#[derive(Debug)]
pub struct Documentation {
    pub services: Vec<ServiceDocs>,
}

impl View for Documentation {
    type V = Seq<ServiceDocsView>;

    open spec fn view(&self) -> Seq<ServiceDocsView> {
        self.services@.map_values(|s: ServiceDocs| s@)
    }
}

/// The first overlay entry of this service-interface name, from `i` on.
pub open spec fn spec_find_service_docs(
    docs: Seq<ServiceDocsView>,
    name: Seq<char>,
    i: int,
) -> Option<ServiceDocsView>
    decreases docs.len() - i,
{
    if i < 0 || i >= docs.len() {
        Option::None
    } else if docs[i].name == name {
        Option::Some(docs[i])
    } else {
        spec_find_service_docs(docs, name, i + 1)
    }
}

/// The first action documentation of this name, from `i` on.
pub open spec fn spec_find_action_docs(
    actions: Seq<ActionDocsView>,
    name: Seq<char>,
    i: int,
) -> Option<ActionDocsView>
    decreases actions.len() - i,
{
    if i < 0 || i >= actions.len() {
        Option::None
    } else if actions[i].name == name {
        Option::Some(actions[i])
    } else {
        spec_find_action_docs(actions, name, i + 1)
    }
}

/// The first parameter documentation of this name, from `i` on.
pub open spec fn spec_find_param_doc(
    params: Seq<ParamDocView>,
    name: Seq<char>,
    i: int,
) -> Option<Seq<char>>
    decreases params.len() - i,
{
    if i < 0 || i >= params.len() {
        Option::None
    } else if params[i].name == name {
        Option::Some(params[i].description)
    } else {
        spec_find_param_doc(params, name, i + 1)
    }
}

fn find_service_docs<'a>(docs: &'a Vec<ServiceDocs>, name: &String, i: usize) -> (r: Option<
    &'a ServiceDocs,
>)
    requires
        i <= docs.len(),
    ensures
        match r {
            Option::Some(d) => spec_find_service_docs(views_of(docs@), name@, i as int)
                == Option::Some(d@),
            Option::None => spec_find_service_docs(views_of(docs@), name@, i as int) is None,
        },
    decreases docs.len() - i,
{
    if i >= docs.len() {
        Option::None
    } else if docs[i].name.eq(name) {
        Option::Some(&docs[i])
    } else {
        find_service_docs(docs, name, i + 1)
    }
}

fn find_action_docs<'a>(actions: &'a Vec<ActionDocs>, name: &String, i: usize) -> (r: Option<
    &'a ActionDocs,
>)
    requires
        i <= actions.len(),
    ensures
        match r {
            Option::Some(d) => spec_find_action_docs(views_of(actions@), name@, i as int)
                == Option::Some(d@),
            Option::None => spec_find_action_docs(views_of(actions@), name@, i as int) is None,
        },
    decreases actions.len() - i,
{
    if i >= actions.len() {
        Option::None
    } else if actions[i].name.eq(name) {
        Option::Some(&actions[i])
    } else {
        find_action_docs(actions, name, i + 1)
    }
}

fn find_param_doc<'a>(params: &'a Vec<ParamDoc>, name: &String, i: usize) -> (r: Option<
    &'a String,
>)
    requires
        i <= params.len(),
    ensures
        match r {
            Option::Some(d) => spec_find_param_doc(views_of(params@), name@, i as int)
                == Option::Some(d@),
            Option::None => spec_find_param_doc(views_of(params@), name@, i as int) is None,
        },
    decreases params.len() - i,
{
    if i >= params.len() {
        Option::None
    } else if params[i].name.eq(name) {
        Option::Some(&params[i].description)
    } else {
        find_param_doc(params, name, i + 1)
    }
}

/// The image of an optional borrowed documentation node.
pub open spec fn opt_action_docs_view(d: Option<&ActionDocs>) -> Option<ActionDocsView> {
    match d {
        Option::None => Option::None,
        Option::Some(a) => Option::Some(a@),
    }
}

/// The overlay's action node for this service and action: the service is
/// looked up under its interface name (the service name with `Service`
/// appended), then the action under its own name.
pub open spec fn spec_action_docs_for(
    docs: Seq<ServiceDocsView>,
    service_name: Seq<char>,
    action_name: Seq<char>,
) -> Option<ActionDocsView> {
    match spec_find_service_docs(docs, service_name + "Service"@, 0) {
        Option::None => Option::None,
        Option::Some(sd) => spec_find_action_docs(sd.actions, action_name, 0),
    }
}

/// A documentation line: `/// ` plus the text, or nothing at all.
pub open spec fn spec_doc_line(doc: Option<Seq<char>>) -> Seq<char> {
    match doc {
        Option::None => Seq::empty(),
        Option::Some(d) => "/// "@ + d + "\n"@,
    }
}

/// The PascalCase name of an action's request record.
pub open spec fn spec_request_type_name(action_name: Seq<char>) -> Seq<char> {
    pascal_of(spec_to_snake_case(action_name) + "_request"@)
}

/// The PascalCase name of an action's response record.
pub open spec fn spec_response_type_name(action_name: Seq<char>) -> Seq<char> {
    pascal_of(spec_to_snake_case(action_name) + "_response"@)
}

/// One emitted record field: an optional documentation line, the XML
/// rename attribute, and the field declaration itself.
pub open spec fn spec_field_block(
    adocs: Option<ActionDocsView>,
    param: VersionedParameterView,
    resolved: Seq<char>,
    documented: bool,
) -> Seq<char> {
    let doc = if documented {
        match adocs {
            Option::None => Option::<Seq<char>>::None,
            Option::Some(a) => spec_find_param_doc(a.params, param.param.name, 0),
        }
    } else {
        Option::None
    };
    spec_doc_line(doc) + "  #[xml(rename=\""@ + param.param.name + "\", ns(\"\"))]\n"@
        + "  pub "@ + spec_to_snake_case(param.param.name) + ": "@ + resolved + ",\n"@
}

/// The emitted fields of a record, from position `i` on; `None` when a
/// field's type cannot be resolved. Input fields may carry documentation;
/// output fields are forced optional and undocumented.
pub open spec fn spec_fields(
    svc: VersionedServiceView,
    adocs: Option<ActionDocsView>,
    params: Seq<VersionedParameterView>,
    always_optional: bool,
    documented: bool,
    i: int,
) -> Option<Seq<char>>
    decreases params.len() - i,
{
    if i < 0 || i >= params.len() {
        Option::Some(Seq::empty())
    } else {
        match spec_resolve_type(svc, params[i], always_optional) {
            Option::None => Option::None,
            Option::Some(t) => match spec_fields(svc, adocs, params, always_optional, documented, i + 1) {
                Option::None => Option::None,
                Option::Some(rest) => Option::Some(
                    spec_field_block(adocs, params[i], t, documented) + rest,
                ),
            },
        }
    }
}

/// Append one record field to the output text.
fn emit_field(
    out: &mut String,
    svc: &VersionedService,
    adocs: Option<&ActionDocs>,
    param: &crate::merged::VersionedParameter,
    always_optional: bool,
    documented: bool,
) -> (r: Result<(), UnifyError>)
    ensures
        match r {
            Result::Ok(()) => {
                &&& spec_resolve_type(svc@, param@, always_optional) is Some
                &&& final(out)@ == old(out)@ + spec_field_block(
                    opt_action_docs_view(adocs),
                    param@,
                    spec_resolve_type(svc@, param@, always_optional).unwrap(),
                    documented,
                )
            },
            Result::Err(e) => {
                &&& spec_resolve_type(svc@, param@, always_optional) is None
                &&& e@ is UnsupportedDataType
            },
        },
{
    let resolved = match svc.resolve_type_for_param(param, always_optional) {
        Result::Ok(t) => t,
        Result::Err(e) => {
            return Result::Err(e);
        },
    };
    if documented {
        match adocs {
            Option::Some(a) => {
                match find_param_doc(&a.params, &param.param.name, 0) {
                    Option::Some(d) => {
                        out.append("/// ");
                        out.append(d.as_str());
                        out.append("\n");
                    },
                    Option::None => {},
                }
            },
            Option::None => {},
        }
    }
    out.append("  #[xml(rename=\"");
    out.append(param.param.name.as_str());
    out.append("\", ns(\"\"))]\n");
    out.append("  pub ");
    let field_name = to_snake_case(param.param.name.as_str());
    out.append(field_name.as_str());
    out.append(": ");
    out.append(resolved.as_str());
    out.append(",\n");
    Result::Ok(())
}

/// Append a record's fields to the output text, in order.
fn emit_fields(
    out: &mut String,
    svc: &VersionedService,
    adocs: Option<&ActionDocs>,
    params: &Vec<crate::merged::VersionedParameter>,
    always_optional: bool,
    documented: bool,
) -> (r: Result<(), UnifyError>)
    ensures
        match r {
            Result::Ok(()) => {
                &&& spec_fields(
                    svc@,
                    opt_action_docs_view(adocs),
                    views_of(params@),
                    always_optional,
                    documented,
                    0,
                ) is Some
                &&& final(out)@ == old(out)@ + spec_fields(
                    svc@,
                    opt_action_docs_view(adocs),
                    views_of(params@),
                    always_optional,
                    documented,
                    0,
                ).unwrap()
            },
            Result::Err(e) => {
                &&& spec_fields(
                    svc@,
                    opt_action_docs_view(adocs),
                    views_of(params@),
                    always_optional,
                    documented,
                    0,
                ) is None
                &&& e@ is UnsupportedDataType
            },
        },
{
    let ghost ps: Seq<VersionedParameterView> = views_of(params@);
    let ghost adv: Option<ActionDocsView> = opt_action_docs_view(adocs);
    let ghost start: Seq<char> = out@;
    let mut i: usize = 0;
    while i < params.len()
        invariant
            i <= params.len(),
            ps == views_of(params@),
            adv == opt_action_docs_view(adocs),
            start == old(out)@,
            match spec_fields(svc@, adv, ps, always_optional, documented, i as int) {
                Option::None => spec_fields(svc@, adv, ps, always_optional, documented, 0)
                    is None,
                Option::Some(rest) => {
                    &&& spec_fields(svc@, adv, ps, always_optional, documented, 0) is Some
                    &&& start + spec_fields(
                        svc@,
                        adv,
                        ps,
                        always_optional,
                        documented,
                        0,
                    ).unwrap() == out@ + rest
                },
            },
        decreases params.len() - i,
{
        let step = emit_field(out, svc, adocs, &params[i], always_optional, documented);
        match step {
            Result::Err(e) => {
                return Result::Err(e);
            },
            Result::Ok(()) => {},
        }
        proof {
            let t = spec_resolve_type(svc@, ps[i as int], always_optional).unwrap();
            let block = spec_field_block(adv, ps[i as int], t, documented);
            if spec_fields(svc@, adv, ps, always_optional, documented, i as int + 1)
                is Some {
                let rest2 = spec_fields(
                    svc@,
                    adv,
                    ps,
                    always_optional,
                    documented,
                    i as int + 1,
                ).unwrap();
                assert((block + rest2).subrange(0, block.len() as int) =~= block);
                assert(start + spec_fields(
                    svc@,
                    adv,
                    ps,
                    always_optional,
                    documented,
                    0,
                ).unwrap() =~= out@ + rest2);
            }
        }
        i = i + 1;
    }
    Result::Ok(())
}

/// The emitted request record of an action, or nothing when the action
/// has no inputs.
pub open spec fn spec_request_struct(
    svc: VersionedServiceView,
    adocs: Option<ActionDocsView>,
    action: VersionedActionView,
) -> Option<Seq<char>> {
    if action.inputs.len() == 0 {
        Option::Some(Seq::empty())
    } else {
        match spec_fields(svc, adocs, action.inputs, false, true, 0) {
            Option::None => Option::None,
            Option::Some(fields) => Option::Some(
                "#[derive(ToXml, Debug, Clone, PartialEq, Default)]\n"@ + "#[xml(rename=\""@
                    + action.name + "\", ns(SERVICE_TYPE))]\n"@ + "pub struct "@
                    + spec_request_type_name(action.name) + " {\n"@ + fields + "}\n\n"@,
            ),
        }
    }
}

/// The emitted response record of an action, or nothing when the action
/// has no outputs. Response fields are forced optional and undocumented.
pub open spec fn spec_response_struct(
    svc: VersionedServiceView,
    action: VersionedActionView,
) -> Option<Seq<char>> {
    if action.outputs.len() == 0 {
        Option::Some(Seq::empty())
    } else {
        match spec_fields(svc, Option::None, action.outputs, true, false, 0) {
            Option::None => Option::None,
            Option::Some(fields) => Option::Some(
                "#[derive(FromXml, Debug, Clone, PartialEq)]\n"@ + "#[xml(rename=\""@
                    + action.name + "Response\", ns(SERVICE_TYPE))]\n"@ + "pub struct "@
                    + spec_response_type_name(action.name) + " {\n"@ + fields + "}\n\n"@,
            ),
        }
    }
}

/// The module-qualified request type of an action, or the unit type when
/// it takes no inputs.
pub open spec fn spec_request_type_ref(module: Seq<char>, action: VersionedActionView) -> Seq<
    char,
> {
    if action.inputs.len() == 0 {
        "()"@
    } else {
        module + "::"@ + spec_request_type_name(action.name)
    }
}

/// The module-qualified response type of an action, or the unit type when
/// it yields no outputs.
pub open spec fn spec_response_type_ref(module: Seq<char>, action: VersionedActionView) -> Seq<
    char,
> {
    if action.outputs.len() == 0 {
        "()"@
    } else {
        module + "::"@ + spec_response_type_name(action.name)
    }
}

/// The parameter list of an emitted method: a request argument exactly
/// when the action has inputs.
pub open spec fn spec_params_decl(module: Seq<char>, action: VersionedActionView) -> Seq<char> {
    if action.inputs.len() == 0 {
        Seq::empty()
    } else {
        ", request: "@ + spec_request_type_ref(module, action)
    }
}

/// The emitted trait method of an action: an optional documentation line
/// and the asynchronous signature.
pub open spec fn spec_trait_method(
    adocs: Option<ActionDocsView>,
    module: Seq<char>,
    action: VersionedActionView,
) -> Seq<char> {
    spec_doc_line(
        match adocs {
            Option::None => Option::None,
            Option::Some(a) => Option::Some(a.description),
        },
    ) + "async fn "@ + spec_to_snake_case(action.name) + "(&self"@ + spec_params_decl(
        module,
        action,
    ) + ") -> Result<"@ + spec_response_type_ref(module, action) + ">;\n"@
}

/// The emitted implementation of an action's method: the signature and a
/// body wiring it to the generic remote-invocation primitive.
pub open spec fn spec_impl_method(module: Seq<char>, action: VersionedActionView) -> Seq<char> {
    "async fn "@ + spec_to_snake_case(action.name) + "(&self"@ + spec_params_decl(module, action)
        + ") -> Result<"@ + spec_response_type_ref(module, action) + "> {\n"@
        + "  self.action(&"@ + module + "::SERVICE_TYPE, \""@ + action.name + "\", "@ + (
    if action.inputs.len() == 0 {
        "crate::soap::Unit{}"@
    } else {
        "request"@
    }) + ").await\n"@ + "}\n\n"@ + "\n"@
}

/// Everything one action contributes: its records for the types stream,
/// its trait method, and its implementation.
pub open spec fn spec_emit_action(
    svc: VersionedServiceView,
    docs: Seq<ServiceDocsView>,
    module: Seq<char>,
    action: VersionedActionView,
) -> Option<(Seq<char>, Seq<char>, Seq<char>)> {
    let adocs = spec_action_docs_for(docs, svc.info.name, action.name);
    match spec_request_struct(svc, adocs, action) {
        Option::None => Option::None,
        Option::Some(req) => match spec_response_struct(svc, action) {
            Option::None => Option::None,
            Option::Some(resp) => Option::Some(
                (
                    req + resp,
                    spec_trait_method(adocs, module, action),
                    spec_impl_method(module, action),
                ),
            ),
        },
    }
}

/// Append an action's request record to the types stream, if it has one.
fn emit_request_struct(
    types: &mut String,
    svc: &VersionedService,
    adocs: Option<&ActionDocs>,
    action: &VersionedAction,
    request_name: &String,
) -> (r: Result<(), UnifyError>)
    requires
        request_name@ == spec_request_type_name(action@.name),
    ensures
        match r {
            Result::Ok(()) => {
                &&& spec_request_struct(svc@, opt_action_docs_view(adocs), action@) is Some
                &&& final(types)@ == old(types)@ + spec_request_struct(
                    svc@,
                    opt_action_docs_view(adocs),
                    action@,
                ).unwrap()
            },
            Result::Err(e) => {
                &&& spec_request_struct(svc@, opt_action_docs_view(adocs), action@) is None
                &&& e@ is UnsupportedDataType
            },
        },
{
    let ghost types0: Seq<char> = types@;
    if action.inputs.len() > 0 {
        types.append("#[derive(ToXml, Debug, Clone, PartialEq, Default)]\n");
        types.append("#[xml(rename=\"");
        types.append(action.name.as_str());
        types.append("\", ns(SERVICE_TYPE))]\n");
        types.append("pub struct ");
        types.append(request_name.as_str());
        types.append(" {\n");
        let fields_result = emit_fields(types, svc, adocs, &action.inputs, false, true);
        match fields_result {
            Result::Err(e) => {
                return Result::Err(e);
            },
            Result::Ok(()) => {},
        }
        types.append("}\n\n");
    }
    proof {
        assert(spec_request_struct(svc@, opt_action_docs_view(adocs), action@) is Some);
        assert(types@ =~= types0 + spec_request_struct(
            svc@,
            opt_action_docs_view(adocs),
            action@,
        ).unwrap());
    }
    Result::Ok(())
}

/// Append an action's response record to the types stream, if it has one.
fn emit_response_struct(
    types: &mut String,
    svc: &VersionedService,
    action: &VersionedAction,
    response_name: &String,
) -> (r: Result<(), UnifyError>)
    requires
        response_name@ == spec_response_type_name(action@.name),
    ensures
        match r {
            Result::Ok(()) => {
                &&& spec_response_struct(svc@, action@) is Some
                &&& final(types)@ == old(types)@ + spec_response_struct(svc@, action@).unwrap()
            },
            Result::Err(e) => {
                &&& spec_response_struct(svc@, action@) is None
                &&& e@ is UnsupportedDataType
            },
        },
{
    let ghost types0: Seq<char> = types@;
    if action.outputs.len() > 0 {
        types.append("#[derive(FromXml, Debug, Clone, PartialEq)]\n");
        types.append("#[xml(rename=\"");
        types.append(action.name.as_str());
        types.append("Response\", ns(SERVICE_TYPE))]\n");
        types.append("pub struct ");
        types.append(response_name.as_str());
        types.append(" {\n");
        let fields_result = emit_fields(types, svc, Option::None, &action.outputs, true, false);
        match fields_result {
            Result::Err(e) => {
                return Result::Err(e);
            },
            Result::Ok(()) => {},
        }
        types.append("}\n\n");
    }
    proof {
        assert(spec_response_struct(svc@, action@) is Some);
        assert(types@ =~= types0 + spec_response_struct(svc@, action@).unwrap());
    }
    Result::Ok(())
}

/// Append an action's trait method to the traits stream.
fn emit_trait_method(
    traits: &mut String,
    adocs: Option<&ActionDocs>,
    module: &String,
    action: &VersionedAction,
    method: &String,
    request_ref: &String,
    response_ref: &String,
)
    requires
        method@ == spec_to_snake_case(action@.name),
        request_ref@ == spec_request_type_ref(module@, action@),
        response_ref@ == spec_response_type_ref(module@, action@),
    ensures
        final(traits)@ == old(traits)@ + spec_trait_method(
            opt_action_docs_view(adocs),
            module@,
            action@,
        ),
{
    let ghost traits0: Seq<char> = traits@;
    match adocs {
        Option::Some(a) => {
            traits.append("/// ");
            traits.append(a.description.as_str());
            traits.append("\n");
        },
        Option::None => {},
    }
    traits.append("async fn ");
    traits.append(method.as_str());
    traits.append("(&self");
    if action.inputs.len() > 0 {
        traits.append(", request: ");
        traits.append(request_ref.as_str());
    }
    traits.append(") -> Result<");
    traits.append(response_ref.as_str());
    traits.append(">;\n");
    proof {
        assert(traits@ =~= traits0 + spec_trait_method(
            opt_action_docs_view(adocs),
            module@,
            action@,
        ));
    }
}

/// Append an action's implementation to the impls stream.
fn emit_impl_method(
    impls: &mut String,
    module: &String,
    action: &VersionedAction,
    method: &String,
    request_ref: &String,
    response_ref: &String,
)
    requires
        method@ == spec_to_snake_case(action@.name),
        request_ref@ == spec_request_type_ref(module@, action@),
        response_ref@ == spec_response_type_ref(module@, action@),
    ensures
        final(impls)@ == old(impls)@ + spec_impl_method(module@, action@),
{
    let ghost impls0: Seq<char> = impls@;
    impls.append("async fn ");
    impls.append(method.as_str());
    impls.append("(&self");
    if action.inputs.len() > 0 {
        impls.append(", request: ");
        impls.append(request_ref.as_str());
    }
    impls.append(") -> Result<");
    impls.append(response_ref.as_str());
    impls.append("> {\n");
    impls.append("  self.action(&");
    impls.append(module.as_str());
    impls.append("::SERVICE_TYPE, \"");
    impls.append(action.name.as_str());
    impls.append("\", ");
    if action.inputs.len() > 0 {
        impls.append("request");
    } else {
        impls.append("crate::soap::Unit{}");
    }
    impls.append(").await\n");
    impls.append("}\n\n");
    impls.append("\n");
    proof {
        assert(impls@ =~= impls0 + spec_impl_method(module@, action@));
    }
}

/// Append one action's contribution to the three streams.
fn emit_action(
    types: &mut String,
    traits: &mut String,
    impls: &mut String,
    svc: &VersionedService,
    docs: &Documentation,
    module: &String,
    action: &VersionedAction,
) -> (r: Result<(), UnifyError>)
    ensures
        match r {
            Result::Ok(()) => {
                &&& spec_emit_action(svc@, docs@, module@, action@) is Some
                &&& final(types)@ == old(types)@ + spec_emit_action(
                    svc@,
                    docs@,
                    module@,
                    action@,
                ).unwrap().0
                &&& final(traits)@ == old(traits)@ + spec_emit_action(
                    svc@,
                    docs@,
                    module@,
                    action@,
                ).unwrap().1
                &&& final(impls)@ == old(impls)@ + spec_emit_action(
                    svc@,
                    docs@,
                    module@,
                    action@,
                ).unwrap().2
            },
            Result::Err(e) => {
                &&& spec_emit_action(svc@, docs@, module@, action@) is None
                &&& e@ is UnsupportedDataType
            },
        },
{
    let ghost types0: Seq<char> = types@;
    let key = svc.info.name.clone().concat("Service");
    let adocs: Option<&ActionDocs> = match find_service_docs(&docs.services, &key, 0) {
        Option::None => Option::None,
        Option::Some(sd) => find_action_docs(&sd.actions, &action.name, 0),
    };
    proof {
        assert(opt_action_docs_view(adocs) == spec_action_docs_for(
            docs@,
            svc@.info.name,
            action@.name,
        ));
    }
    let method = to_snake_case(action.name.as_str());
    let request_name = to_pascal_case(to_snake_case(action.name.as_str()).concat("_request").as_str());
    let response_name = to_pascal_case(
        to_snake_case(action.name.as_str()).concat("_response").as_str(),
    );
    let request_ref: String = if action.inputs.len() == 0 {
        "()".to_owned()
    } else {
        module.clone().concat("::").concat(request_name.as_str())
    };
    let response_ref: String = if action.outputs.len() == 0 {
        "()".to_owned()
    } else {
        module.clone().concat("::").concat(response_name.as_str())
    };

    let request_result = emit_request_struct(types, svc, adocs, action, &request_name);
    match request_result {
        Result::Err(e) => {
            return Result::Err(e);
        },
        Result::Ok(()) => {},
    }
    let response_result = emit_response_struct(types, svc, action, &response_name);
    match response_result {
        Result::Err(e) => {
            return Result::Err(e);
        },
        Result::Ok(()) => {},
    }
    proof {
        assert(types@ =~= types0 + spec_emit_action(svc@, docs@, module@, action@).unwrap().0);
    }
    emit_trait_method(traits, adocs, module, action, &method, &request_ref, &response_ref);
    emit_impl_method(impls, module, action, &method, &request_ref, &response_ref);
    Result::Ok(())
}


/// The three per-action streams of a whole service, from action `i` on.
pub open spec fn spec_emit_actions(
    svc: VersionedServiceView,
    docs: Seq<ServiceDocsView>,
    module: Seq<char>,
    i: int,
) -> Option<(Seq<char>, Seq<char>, Seq<char>)>
    decreases svc.actions.len() - i,
{
    if i < 0 || i >= svc.actions.len() {
        Option::Some((Seq::empty(), Seq::empty(), Seq::empty()))
    } else {
        match spec_emit_action(svc, docs, module, svc.actions[i]) {
            Option::None => Option::None,
            Option::Some(a) => match spec_emit_actions(svc, docs, module, i + 1) {
                Option::None => Option::None,
                Option::Some(rest) => Option::Some(
                    (a.0 + rest.0, a.1 + rest.1, a.2 + rest.2),
                ),
            },
        }
    }
}

/// The opening of a service's types module: its documentation header, the
/// module itself, and the service-type constant.
pub open spec fn spec_types_open(svc: VersionedServiceView, module: Seq<char>) -> Seq<char> {
    "/// Request and Response types for the `"@ + svc.info.name
        + "` service.\n            pub mod "@ + module
        + " {\nuse instant_xml::{FromXml, ToXml};\n\n"@ + "/// URN for the `"@ + svc.info.name
        + "` service.\n            /// `"@ + svc.info.service_type
        + "`\n            pub const SERVICE_TYPE: &str = \""@ + svc.info.service_type
        + "\";\n\n"@
}

/// The opening of a service's capability trait, with its optional
/// documentation line.
pub open spec fn spec_traits_open(
    svc: VersionedServiceView,
    sdocs: Option<ServiceDocsView>,
) -> Seq<char> {
    "#[allow(async_fn_in_trait)]\n"@ + spec_doc_line(
        match sdocs {
            Option::None => Option::None,
            Option::Some(s) => Option::Some(s.description),
        },
    ) + "pub trait "@ + svc.info.name + " {\n"@
}

/// Everything one service contributes to the four streams: types, traits,
/// implementations and the prelude re-export.
pub open spec fn spec_emit_service(svc: VersionedServiceView, docs: Seq<ServiceDocsView>) -> Option<
    (Seq<char>, Seq<char>, Seq<char>, Seq<char>),
> {
    let module = spec_to_snake_case(svc.info.name);
    let sdocs = spec_find_service_docs(docs, svc.info.name + "Service"@, 0);
    match spec_emit_actions(svc, docs, module, 0) {
        Option::None => Option::None,
        Option::Some(a) => Option::Some(
            (
                spec_types_open(svc, module) + a.0 + "}\n\n"@,
                spec_traits_open(svc, sdocs) + a.1 + "}\n\n"@,
                "impl "@ + svc.info.name + " for SonosDevice {\n"@ + a.2 + "}\n\n"@,
                "pub use super::"@ + svc.info.name + ";\n"@,
            ),
        ),
    }
}

/// Append one service's contribution to the four streams.
#[verifier::rlimit(60)]
fn emit_service(
    types: &mut String,
    traits: &mut String,
    impls: &mut String,
    prelude: &mut String,
    svc: &VersionedService,
    docs: &Documentation,
) -> (r: Result<(), UnifyError>)
    ensures
        match r {
            Result::Ok(()) => {
                &&& spec_emit_service(svc@, docs@) is Some
                &&& final(types)@ == old(types)@ + spec_emit_service(svc@, docs@).unwrap().0
                &&& final(traits)@ == old(traits)@ + spec_emit_service(svc@, docs@).unwrap().1
                &&& final(impls)@ == old(impls)@ + spec_emit_service(svc@, docs@).unwrap().2
                &&& final(prelude)@ == old(prelude)@ + spec_emit_service(svc@, docs@).unwrap().3
            },
            Result::Err(e) => {
                &&& spec_emit_service(svc@, docs@) is None
                &&& e@ is UnsupportedDataType
            },
        },
{
    let ghost types0: Seq<char> = types@;
    let ghost traits0: Seq<char> = traits@;
    let ghost impls0: Seq<char> = impls@;
    let ghost prelude0: Seq<char> = prelude@;

    let key = svc.info.name.clone().concat("Service");
    let sdocs = find_service_docs(&docs.services, &key, 0);
    traits.append("#[allow(async_fn_in_trait)]\n");
    match sdocs {
        Option::Some(sd) => {
            traits.append("/// ");
            traits.append(sd.description.as_str());
            traits.append("\n");
        },
        Option::None => {},
    }
    traits.append("pub trait ");
    traits.append(svc.info.name.as_str());
    traits.append(" {\n");
    prelude.append("pub use super::");
    prelude.append(svc.info.name.as_str());
    prelude.append(";\n");
    impls.append("impl ");
    impls.append(svc.info.name.as_str());
    impls.append(" for SonosDevice {\n");
    let module = to_snake_case(svc.info.name.as_str());
    types.append("/// Request and Response types for the `");
    types.append(svc.info.name.as_str());
    types.append("` service.\n            pub mod ");
    types.append(module.as_str());
    types.append(" {\nuse instant_xml::{FromXml, ToXml};\n\n");
    types.append("/// URN for the `");
    types.append(svc.info.name.as_str());
    types.append("` service.\n            /// `");
    types.append(svc.info.service_type.as_str());
    types.append("`\n            pub const SERVICE_TYPE: &str = \"");
    types.append(svc.info.service_type.as_str());
    types.append("\";\n\n");

    proof {
        assert(types@ =~= types0 + spec_types_open(svc@, module@));
        assert(traits@ =~= traits0 + spec_traits_open(
            svc@,
            spec_find_service_docs(docs@, svc@.info.name + "Service"@, 0),
        ));
    }
    let ghost types1: Seq<char> = types@;
    let ghost traits1: Seq<char> = traits@;
    let ghost impls1: Seq<char> = impls@;

    let mut ai: usize = 0;
    while ai < svc.actions.len()
        invariant
            ai <= svc.actions.len(),
            module@ == spec_to_snake_case(svc@.info.name),
            match spec_emit_actions(svc@, docs@, module@, ai as int) {
                Option::None => spec_emit_actions(svc@, docs@, module@, 0) is None,
                Option::Some(rest) => {
                    &&& spec_emit_actions(svc@, docs@, module@, 0) is Some
                    &&& types1 + spec_emit_actions(svc@, docs@, module@, 0).unwrap().0
                        == types@ + rest.0
                    &&& traits1 + spec_emit_actions(svc@, docs@, module@, 0).unwrap().1
                        == traits@ + rest.1
                    &&& impls1 + spec_emit_actions(svc@, docs@, module@, 0).unwrap().2
                        == impls@ + rest.2
                },
            },
        decreases svc.actions.len() - ai,
    {
        let step = emit_action(types, traits, impls, svc, docs, &module, &svc.actions[ai]);
        match step {
            Result::Err(e) => {
                proof {
                    assert(spec_emit_actions(svc@, docs@, module@, ai as int) is None);
                }
                return Result::Err(e);
            },
            Result::Ok(()) => {},
        }
        proof {
            let a = spec_emit_action(svc@, docs@, module@, svc@.actions[ai as int]).unwrap();
            if spec_emit_actions(svc@, docs@, module@, ai as int + 1) is Some {
                let rest2 = spec_emit_actions(svc@, docs@, module@, ai as int + 1).unwrap();
                assert(types1 + spec_emit_actions(svc@, docs@, module@, 0).unwrap().0
                    =~= types@ + rest2.0);
                assert(traits1 + spec_emit_actions(svc@, docs@, module@, 0).unwrap().1
                    =~= traits@ + rest2.1);
                assert(impls1 + spec_emit_actions(svc@, docs@, module@, 0).unwrap().2
                    =~= impls@ + rest2.2);
            }
        }
        ai = ai + 1;
    }
    types.append("}\n\n");
    traits.append("}\n\n");
    impls.append("}\n\n");
    proof {
        let a = spec_emit_actions(svc@, docs@, module@, 0).unwrap();
        assert(types@ =~= types0 + (spec_types_open(svc@, module@) + a.0 + "}\n\n"@));
        assert(traits@ =~= traits0 + (spec_traits_open(
            svc@,
            spec_find_service_docs(docs@, svc@.info.name + "Service"@, 0),
        ) + a.1 + "}\n\n"@));
        assert(impls@ =~= impls0 + ("impl "@ + svc@.info.name + " for SonosDevice {\n"@ + a.2
            + "}\n\n"@));
        assert(prelude@ =~= prelude0 + ("pub use super::"@ + svc@.info.name + ";\n"@));
    }
    Result::Ok(())
}

/// The four streams of the whole schema, from service `i` on.
pub open spec fn spec_emit_services(
    services: Seq<VersionedServiceView>,
    docs: Seq<ServiceDocsView>,
    i: int,
) -> Option<(Seq<char>, Seq<char>, Seq<char>, Seq<char>)>
    decreases services.len() - i,
{
    if i < 0 || i >= services.len() {
        Option::Some((Seq::empty(), Seq::empty(), Seq::empty(), Seq::empty()))
    } else {
        match spec_emit_service(services[i], docs) {
            Option::None => Option::None,
            Option::Some(s) => match spec_emit_services(services, docs, i + 1) {
                Option::None => Option::None,
                Option::Some(rest) => Option::Some(
                    (s.0 + rest.0, s.1 + rest.1, s.2 + rest.2, s.3 + rest.3),
                ),
            },
        }
    }
}

/// The whole generated artifact: a fixed header, the record definitions
/// grouped per service module, the capability traits, the concrete
/// implementations, and the prelude of re-exports, in that order.
pub open spec fn spec_emit(
    services: Seq<VersionedServiceView>,
    docs: Seq<ServiceDocsView>,
) -> Option<Seq<char>> {
    match spec_emit_services(services, docs, 0) {
        Option::None => Option::None,
        Option::Some(s) => Option::Some(
            "// This file was auto-generated by codegen! Do not edit!\n\nuse crate::SonosDevice;\nuse crate::Result;\n\n"@
                + s.0 + "\n"@ + s.1 + "\n"@ + s.2
                + "\n\n/// The prelude makes it convenient to use the methods of `SonosDevice`.\n/// Intended usage is `use sonos::prelude::*;` and then you don't have\n/// to worry about importing the individual service traits.\npub mod prelude {\n"@
                + s.3 + "\n}\n"@,
        ),
    }
}

/// Render the merged schema, with the documentation overlay, into the
/// generated source text. The only failure is an unrecognised data-type
/// tag; missing documentation is simply omitted, never an error.
#[verifier::rlimit(60)]
pub fn emit(services: &Vec<VersionedService>, docs: &Documentation) -> (r: Result<
    String,
    UnifyError,
>)
    ensures
        match r {
            Result::Ok(text) => spec_emit(views_of(services@), docs@) == Option::Some(text@),
            Result::Err(e) => {
                &&& spec_emit(views_of(services@), docs@) is None
                &&& e@ is UnsupportedDataType
            },
        },
{
    let ghost svs: Seq<VersionedServiceView> = views_of(services@);
    let mut types = String::new();
    let mut traits = String::new();
    let mut impls = String::new();
    let mut prelude = String::new();
    let mut si: usize = 0;
    while si < services.len()
        invariant
            si <= services.len(),
            svs == views_of(services@),
            match spec_emit_services(svs, docs@, si as int) {
                Option::None => spec_emit_services(svs, docs@, 0) is None,
                Option::Some(rest) => {
                    &&& spec_emit_services(svs, docs@, 0) is Some
                    &&& spec_emit_services(svs, docs@, 0).unwrap().0 == types@ + rest.0
                    &&& spec_emit_services(svs, docs@, 0).unwrap().1 == traits@ + rest.1
                    &&& spec_emit_services(svs, docs@, 0).unwrap().2 == impls@ + rest.2
                    &&& spec_emit_services(svs, docs@, 0).unwrap().3 == prelude@ + rest.3
                },
            },
        decreases services.len() - si,
    {
        let step = emit_service(&mut types, &mut traits, &mut impls, &mut prelude, &services[si], docs);
        match step {
            Result::Err(e) => {
                return Result::Err(e);
            },
            Result::Ok(()) => {},
        }
        proof {
            let s = spec_emit_service(svs[si as int], docs@).unwrap();
            if spec_emit_services(svs, docs@, si as int + 1) is Some {
                let rest2 = spec_emit_services(svs, docs@, si as int + 1).unwrap();
                assert(spec_emit_services(svs, docs@, 0).unwrap().0 =~= types@ + rest2.0);
                assert(spec_emit_services(svs, docs@, 0).unwrap().1 =~= traits@ + rest2.1);
                assert(spec_emit_services(svs, docs@, 0).unwrap().2 =~= impls@ + rest2.2);
                assert(spec_emit_services(svs, docs@, 0).unwrap().3 =~= prelude@ + rest2.3);
            }
        }
        si = si + 1;
    }
    let mut out = String::new();
    out.append("// This file was auto-generated by codegen! Do not edit!\n\nuse crate::SonosDevice;\nuse crate::Result;\n\n");
    out.append(types.as_str());
    out.append("\n");
    out.append(traits.as_str());
    out.append("\n");
    out.append(impls.as_str());
    out.append("\n\n/// The prelude makes it convenient to use the methods of `SonosDevice`.\n/// Intended usage is `use sonos::prelude::*;` and then you don't have\n/// to worry about importing the individual service traits.\npub mod prelude {\n");
    out.append(prelude.as_str());
    out.append("\n}\n");
    proof {
        let full = spec_emit_services(svs, docs@, 0).unwrap();
        assert(full.0 =~= types@);
        assert(full.1 =~= traits@);
        assert(full.2 =~= impls@);
        assert(full.3 =~= prelude@);
        assert(out@ =~= spec_emit(svs, docs@).unwrap());
    }
    Result::Ok(out)
}

} // verus!
