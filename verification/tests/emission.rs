use codegen::emit::ActionDocs;
use codegen::emit::Documentation;
use codegen::emit::ParamDoc;
use codegen::emit::ServiceDocs;
use codegen::emit::emit;
use codegen::merged::ServiceInfo;
use codegen::merged::UnifyError;
use codegen::merged::VersionedAction;
use codegen::merged::VersionedParameter;
use codegen::merged::VersionedService;
use codegen::naming::to_pascal_case;
use codegen::naming::to_snake_case;
use codegen::schema::Parameter;
use codegen::schema::StateVariable;

fn variable(name: &str, data_type: &str) -> StateVariable {
    StateVariable {
        name: name.to_string(),
        data_type: data_type.to_string(),
        allowed_values: None,
        send_events: false,
    }
}

fn vparam(name: &str, var: &str, optional: bool) -> VersionedParameter {
    VersionedParameter {
        param: Parameter {
            name: name.to_string(),
            related_state_variable_name: var.to_string(),
        },
        supported_by: vec!["A".to_string()],
        optional,
    }
}

fn sample_service() -> VersionedService {
    VersionedService {
        info: ServiceInfo {
            name: "Playback".to_string(),
            service_type: "urn:schemas-test:service:Playback:1".to_string(),
        },
        state_variables: vec![variable("Speed", "ui2"), variable("TrackName", "string")],
        actions: vec![
            VersionedAction {
                name: "Play".to_string(),
                inputs: vec![vparam("Speed", "Speed", false)],
                outputs: vec![vparam("TrackName", "TrackName", false)],
            },
            VersionedAction {
                name: "Stop".to_string(),
                inputs: vec![],
                outputs: vec![],
            },
        ],
    }
}

fn no_docs() -> Documentation {
    Documentation { services: vec![] }
}

#[test]
fn snake_case_shapes_method_names() {
    assert_eq!(to_snake_case("GetVolume"), "get_volume");
    assert_eq!(to_snake_case("Type"), "type_");
    assert_eq!(to_snake_case("TrackIDs"), "track_ids");
    assert_eq!(to_snake_case("SaveURIs"), "save_uris");
}

#[test]
fn pascal_case_shapes_record_names() {
    assert_eq!(to_pascal_case("get_volume_request"), "GetVolumeRequest");
    assert_eq!(to_pascal_case("play_response"), "PlayResponse");
}

#[test]
fn resolver_maps_the_fixed_primitive_set() {
    let svc = sample_service();
    let speed = vparam("Speed", "Speed", false);
    assert_eq!(svc.resolve_type_for_param(&speed, false).unwrap(), "u16");
    assert_eq!(svc.resolve_type_for_param(&speed, true).unwrap(), "Option<u16>");
    let optional_speed = vparam("Speed", "Speed", true);
    assert_eq!(svc.resolve_type_for_param(&optional_speed, false).unwrap(), "Option<u16>");
    let track = vparam("TrackName", "TrackName", false);
    assert_eq!(svc.resolve_type_for_param(&track, false).unwrap(), "String");
}

#[test]
fn resolver_falls_back_to_text_for_a_missing_variable() {
    let svc = sample_service();
    let unknown = vparam("Other", "NeverCaptured", false);
    assert_eq!(svc.resolve_type_for_param(&unknown, false).unwrap(), "String");
    assert_eq!(svc.resolve_type_for_param(&unknown, true).unwrap(), "Option<String>");
}

#[test]
fn resolver_rejects_an_unrecognised_tag() {
    let mut svc = sample_service();
    svc.state_variables.push(variable("Rate", "float"));
    let rate = vparam("Rate", "Rate", false);
    match svc.resolve_type_for_param(&rate, false) {
        Err(UnifyError::UnsupportedDataType { data_type }) => assert_eq!(data_type, "float"),
        other => panic!("expected an unsupported-type error, got {other:?}"),
    }
}

#[test]
fn emitted_text_holds_records_trait_impl_and_prelude() {
    let out = emit(&vec![sample_service()], &no_docs()).expect("emission succeeds");
    assert!(out.starts_with("// This file was auto-generated by codegen! Do not edit!\n"));
    assert!(out.contains("pub mod playback {"));
    assert!(out.contains(
        "pub const SERVICE_TYPE: &str = \"urn:schemas-test:service:Playback:1\";"
    ));
    assert!(out.contains("#[derive(ToXml, Debug, Clone, PartialEq, Default)]"));
    assert!(out.contains("#[xml(rename=\"Play\", ns(SERVICE_TYPE))]"));
    assert!(out.contains("pub struct PlayRequest {"));
    assert!(out.contains("  #[xml(rename=\"Speed\", ns(\"\"))]\n  pub speed: u16,\n"));
    assert!(out.contains("#[derive(FromXml, Debug, Clone, PartialEq)]"));
    assert!(out.contains("#[xml(rename=\"PlayResponse\", ns(SERVICE_TYPE))]"));
    assert!(out.contains("pub struct PlayResponse {"));
    assert!(out.contains("  pub track_name: Option<String>,\n"));
    assert!(out.contains("pub trait Playback {"));
    assert!(out.contains(
        "async fn play(&self, request: playback::PlayRequest) -> Result<playback::PlayResponse>;"
    ));
    assert!(out.contains("async fn stop(&self) -> Result<()>;"));
    assert!(out.contains("impl Playback for SonosDevice {"));
    assert!(out.contains(
        "  self.action(&playback::SERVICE_TYPE, \"Play\", request).await\n"
    ));
    assert!(out.contains(
        "  self.action(&playback::SERVICE_TYPE, \"Stop\", crate::soap::Unit{}).await\n"
    ));
    assert!(out.contains("pub mod prelude {\npub use super::Playback;\n"));
}

#[test]
fn documentation_overlay_lines_are_emitted_where_keys_match() {
    let docs = Documentation {
        services: vec![ServiceDocs {
            name: "PlaybackService".to_string(),
            description: "Transport control.".to_string(),
            actions: vec![ActionDocs {
                name: "Play".to_string(),
                description: "Start playback.".to_string(),
                params: vec![ParamDoc {
                    name: "Speed".to_string(),
                    description: "Playback speed.".to_string(),
                }],
            }],
        }],
    };
    let out = emit(&vec![sample_service()], &docs).expect("emission succeeds");
    assert!(out.contains("/// Transport control.\npub trait Playback {"));
    assert!(out.contains("/// Start playback.\nasync fn play(&self"));
    assert!(out.contains("/// Playback speed.\n  #[xml(rename=\"Speed\""));
}

#[test]
fn unmatched_documentation_keys_are_ignored() {
    let docs = Documentation {
        services: vec![ServiceDocs {
            name: "SomethingElseService".to_string(),
            description: "Not this one.".to_string(),
            actions: vec![],
        }],
    };
    let out = emit(&vec![sample_service()], &docs).expect("emission succeeds");
    assert!(!out.contains("Not this one."));
    assert!(out.contains("#[allow(async_fn_in_trait)]\npub trait Playback {"));
}

#[test]
fn emitted_text_for_an_empty_service_is_exact() {
    let svc = VersionedService {
        info: ServiceInfo {
            name: "Zone".to_string(),
            service_type: "urn:z".to_string(),
        },
        state_variables: vec![],
        actions: vec![],
    };
    let out = emit(&vec![svc], &no_docs()).expect("emission succeeds");
    let mut expected = String::new();
    expected.push_str("// This file was auto-generated by codegen! Do not edit!\n\n");
    expected.push_str("use crate::SonosDevice;\nuse crate::Result;\n\n");
    expected.push_str("/// Request and Response types for the `Zone` service.\n");
    expected.push_str("            pub mod zone {\n");
    expected.push_str("use instant_xml::{FromXml, ToXml};\n\n");
    expected.push_str("/// URN for the `Zone` service.\n");
    expected.push_str("            /// `urn:z`\n");
    expected.push_str("            pub const SERVICE_TYPE: &str = \"urn:z\";\n\n");
    expected.push_str("}\n\n");
    expected.push_str("\n");
    expected.push_str("#[allow(async_fn_in_trait)]\n");
    expected.push_str("pub trait Zone {\n");
    expected.push_str("}\n\n");
    expected.push_str("\n");
    expected.push_str("impl Zone for SonosDevice {\n");
    expected.push_str("}\n\n");
    expected.push_str("\n\n");
    expected.push_str("/// The prelude makes it convenient to use the methods of `SonosDevice`.\n");
    expected.push_str("/// Intended usage is `use sonos::prelude::*;` and then you don't have\n");
    expected.push_str("/// to worry about importing the individual service traits.\n");
    expected.push_str("pub mod prelude {\n");
    expected.push_str("pub use super::Zone;\n");
    expected.push_str("\n}\n");
    assert_eq!(out, expected);
}

#[test]
fn emission_fails_on_an_unrecognised_tag() {
    let mut svc = sample_service();
    svc.state_variables[0].data_type = "float".to_string();
    match emit(&vec![svc], &no_docs()) {
        Err(UnifyError::UnsupportedDataType { data_type }) => assert_eq!(data_type, "float"),
        other => panic!("expected an unsupported-type error, got {other:?}"),
    }
}
