use pdl_gen::browser::{BrowserContext, BrowserContextId};
use pdl_gen::generator::{GenError, Generator};
use pdl_gen::ir::{
    Domain, DomainDatatype, Event, Param, Protocol, Type, TypeDef, TypeItem, Version,
};
use pdl_gen::serde_support::SerdeSupport;

fn param(name: &str, ty: Type) -> Param {
    Param {
        name: name.to_string(),
        description: None,
        optional: false,
        deprecated: false,
        experimental: false,
        ty,
    }
}

fn domain(name: &str, datatypes: Vec<DomainDatatype>) -> Domain {
    Domain {
        name: name.to_string(),
        description: None,
        deprecated: false,
        experimental: false,
        datatypes,
    }
}

fn typedef(name: &str, extends: Type, item: Option<TypeItem>) -> DomainDatatype {
    DomainDatatype::TypeDef(TypeDef {
        name: name.to_string(),
        description: None,
        deprecated: false,
        experimental: false,
        extends,
        item,
    })
}

fn event(name: &str, parameters: Vec<Param>) -> DomainDatatype {
    DomainDatatype::Event(Event {
        name: name.to_string(),
        description: None,
        deprecated: false,
        experimental: false,
        parameters,
    })
}

fn protocol(major: &str, minor: &str, domains: Vec<Domain>) -> Protocol {
    Protocol {
        version: Version { major: major.to_string(), minor: minor.to_string() },
        domains,
    }
}

fn two_document_input() -> (Vec<Protocol>, Vec<String>) {
    let doc1 = protocol(
        "1",
        "3",
        vec![domain("A", vec![typedef("Widget", Type::Integer, None)])],
    );
    let doc2 = protocol(
        "1",
        "0",
        vec![domain(
            "B",
            vec![typedef(
                "Holder",
                Type::Object,
                Some(TypeItem::Properties(vec![param("w", Type::Ref("A.Widget".to_string()))])),
            )],
        )],
    );
    (vec![doc1, doc2], vec!["doc1".to_string(), "doc2".to_string()])
}

#[test]
fn cross_document_reference_includes_document_segment() {
    let (protocols, mods) = two_document_input();
    let mut g = Generator::default();
    g.serde(SerdeSupport::Disabled);
    let out = g.compile_protocols(&protocols, &mods).unwrap();
    assert!(out.contains("pub w: super::super::doc1::a::Widget,\n"));
    assert!(out.contains("pub mod doc1 {\n"));
    assert!(out.contains("pub const VERSION: &str = \"1.3\";\n"));
    assert!(out.contains("pub mod cdp {\n"));
}

#[test]
fn same_document_reference_has_no_document_segment() {
    let doc = protocol(
        "1",
        "0",
        vec![
            domain("A", vec![typedef("Widget", Type::Integer, None)]),
            domain(
                "B",
                vec![typedef(
                    "Holder",
                    Type::Object,
                    Some(TypeItem::Properties(vec![param("w", Type::Ref("A.Widget".to_string()))])),
                )],
            ),
        ],
    );
    let mut g = Generator::default();
    g.serde(SerdeSupport::Disabled);
    let out = g.compile_protocols(&vec![doc], &vec!["doc1".to_string()]).unwrap();
    assert!(out.contains("pub w: super::a::Widget,\n"));
    assert!(!out.contains("super::super::doc1::a::Widget"));
}

#[test]
fn forward_reference_size_resolved_in_fixup_pass() {
    let (protocols, mods) = two_document_input();
    let mut g = Generator::default();
    g.serde(SerdeSupport::Disabled);
    g.compile_protocols(&protocols, &mods).unwrap();
    assert_eq!(g.type_size.get(&"Widget".to_string()), Some(8));
    assert_eq!(g.type_size.get(&"Holder".to_string()), Some(8));
    assert!(g.ref_sizes.is_empty());
}

#[test]
fn interleaved_forward_references_sum_correctly() {
    let doc = protocol(
        "1",
        "0",
        vec![domain(
            "A",
            vec![
                typedef(
                    "Pair",
                    Type::Object,
                    Some(TypeItem::Properties(vec![
                        param("x", Type::Ref("Widget".to_string())),
                        param("y", Type::Ref("Gadget".to_string())),
                    ])),
                ),
                typedef(
                    "Combo",
                    Type::Object,
                    Some(TypeItem::Properties(vec![
                        param("w", Type::Ref("Widget".to_string())),
                        param("g", Type::Ref("Gadget".to_string())),
                    ])),
                ),
                typedef("Widget", Type::Integer, None),
                typedef("Gadget", Type::Str, None),
            ],
        )],
    );
    let mut g = Generator::default();
    g.serde(SerdeSupport::Disabled);
    g.compile_protocols(&vec![doc], &vec!["doc1".to_string()]).unwrap();
    assert_eq!(g.type_size.get(&"Widget".to_string()), Some(8));
    assert_eq!(g.type_size.get(&"Gadget".to_string()), Some(24));
    assert_eq!(g.type_size.get(&"Pair".to_string()), Some(32));
    assert_eq!(g.type_size.get(&"Combo".to_string()), Some(32));
}

#[test]
fn generation_is_idempotent_on_identical_inputs() {
    let (protocols1, mods1) = two_document_input();
    let (protocols2, mods2) = two_document_input();
    let mut g1 = Generator::default();
    let mut g2 = Generator::default();
    let out1 = g1.compile_protocols(&protocols1, &mods1).unwrap();
    let out2 = g2.compile_protocols(&protocols2, &mods2).unwrap();
    assert_eq!(out1, out2);
}

#[test]
fn target_mod_renames_top_level_module() {
    let (protocols, mods) = two_document_input();
    let mut g = Generator::default();
    g.serde(SerdeSupport::Disabled);
    g.target_mod("protocol".to_string());
    let out = g.compile_protocols(&protocols, &mods).unwrap();
    assert!(out.contains("pub mod protocol {\n"));
    assert!(!out.contains("pub mod cdp {\n"));
}

#[test]
fn unknown_domain_reference_fails() {
    let doc = protocol(
        "1",
        "0",
        vec![domain(
            "B",
            vec![typedef(
                "Holder",
                Type::Object,
                Some(TypeItem::Properties(vec![param("w", Type::Ref("Zz.Q".to_string()))])),
            )],
        )],
    );
    let mut g = Generator::default();
    let err = g.compile_protocols(&vec![doc], &vec!["doc1".to_string()]).unwrap_err();
    match err {
        GenError::UnknownDomain(name) => assert_eq!(name, "Zz"),
        _ => panic!("expected an unknown-domain error"),
    }
}

#[test]
fn unresolved_deferred_reference_fails() {
    let doc = protocol(
        "1",
        "0",
        vec![domain(
            "B",
            vec![typedef(
                "Holder",
                Type::Object,
                Some(TypeItem::Properties(vec![param("w", Type::Ref("Missing".to_string()))])),
            )],
        )],
    );
    let mut g = Generator::default();
    let err = g.compile_protocols(&vec![doc], &vec!["doc1".to_string()]).unwrap_err();
    match err {
        GenError::UnresolvedRef(name) => assert_eq!(name, "Missing"),
        _ => panic!("expected an unresolved-reference error"),
    }
}

fn event_union_with_size(size: usize) -> String {
    let mut g = Generator::default();
    g.serde(SerdeSupport::Disabled);
    g.protocol_mods.push("pdl".to_string());
    g.domains.set("Dom".to_string(), 0);
    g.type_size.set("Ping".to_string(), size);
    let protocols = vec![protocol("1", "0", vec![domain("Dom", vec![event("ping", vec![])])])];
    g.generate_event_enums(&protocols).unwrap()
}

#[test]
fn event_below_threshold_is_inline() {
    let out = event_union_with_size(199);
    assert!(out.contains("DomPing(super::pdl::dom::Ping),\n"));
    assert!(!out.contains("Box<super::pdl::dom::Ping>"));
}

#[test]
fn event_at_threshold_is_boxed() {
    let out = event_union_with_size(200);
    assert!(out.contains("DomPing(Box<super::pdl::dom::Ping>),\n"));
}

#[test]
fn disabled_serde_leaves_no_markers_on_the_union() {
    let out = event_union_with_size(10);
    assert!(out.starts_with("#[derive(Debug, Clone, PartialEq)]\npub enum Event {\n"));
    assert!(!out.contains("Serialize"));
    assert!(!out.contains("serde"));
}

#[test]
fn feature_gated_serde_over_full_compile() {
    let doc = protocol(
        "1",
        "0",
        vec![domain("Dom", vec![event("ping", vec![])])],
    );
    let mut g = Generator::default();
    g.serde(SerdeSupport::with_feature("serde0".to_string()));
    let out = g.compile_protocols(&vec![doc], &vec!["doc1".to_string()]).unwrap();
    assert!(out.contains("#[cfg(feature = \"serde0\")]\nuse serde::{Serialize, Deserialize};\n"));
    assert!(out.contains(
        "#[cfg_attr(feature = \"serde0\", derive(Serialize, Deserialize))]\n#[derive(Debug, Clone, PartialEq)]\n#[cfg_attr(feature = \"serde0\", serde(tag = \"method\"))]\npub enum Event {\n"
    ));
    assert!(out.contains("#[cfg_attr(feature = \"serde0\", serde(tag = \"method\"))]\n"));
    assert!(out.contains("#[cfg_attr(feature = \"serde0\", serde(rename = \"Dom.ping\"))]\n"));
    assert!(out.contains("#[cfg(feature = \"serde0\")]\nimpl std::convert::TryInto<chromeoxid_types::CdpEvent> for Event {\n"));
    assert!(!out.contains("#[derive(Serialize, Deserialize, Debug, Clone, PartialEq)]"));
}

#[test]
fn event_union_dispatches_identifier() {
    let out = event_union_with_size(10);
    assert!(out.contains("pub enum Event {\n"));
    assert!(out.contains("Event::DomPing(inner) => inner.identifier(),\n"));
}

#[test]
fn event_without_tracked_size_fails() {
    let mut g = Generator::default();
    g.protocol_mods.push("pdl".to_string());
    g.domains.set("Dom".to_string(), 0);
    let protocols = vec![protocol("1", "0", vec![domain("Dom", vec![event("ping", vec![])])])];
    let err = g.generate_event_enums(&protocols).unwrap_err();
    match err {
        GenError::MissingEventSize(name) => assert_eq!(name, "Ping"),
        _ => panic!("expected a missing-event-size error"),
    }
}

#[test]
fn event_union_serde_support_emits_json_helpers() {
    let mut g = Generator::default();
    g.protocol_mods.push("pdl".to_string());
    g.domains.set("Dom".to_string(), 0);
    g.type_size.set("Ping".to_string(), 10);
    let protocols = vec![protocol("1", "0", vec![domain("Dom", vec![event("ping", vec![])])])];
    let out = g.generate_event_enums(&protocols).unwrap();
    assert!(out.contains("#[serde(tag = \"method\")]\n"));
    assert!(out.contains("#[serde(rename = \"Dom.ping\")]\n"));
    assert!(out.contains("Event::DomPing(inner) => serde_json::to_value(inner),\n"));
    assert!(out.contains("impl std::convert::TryInto<chromeoxid_types::CdpEvent> for Event {\n"));
}

#[test]
fn error_messages_name_the_subject() {
    assert_eq!(
        GenError::UnknownDomain("Zz".to_string()).message(),
        "no domain registered for Zz"
    );
    assert_eq!(
        GenError::UnresolvedRef("Missing".to_string()).message(),
        "no type found for ref Missing"
    );
    assert_eq!(
        GenError::MissingEventSize("Ping".to_string()).message(),
        "no size tracked for event Ping"
    );
}

#[test]
fn default_configuration() {
    let g = Generator::default();
    assert!(g.with_experimental);
    assert!(!g.with_deprecated);
    assert!(g.out_dir.is_none());
    assert!(g.target_mod.is_none());
    assert!(matches!(g.serde_support, SerdeSupport::AlwaysOn));
}

#[test]
fn deprecated_domain_kept_when_enabled() {
    let mut doc = protocol(
        "1",
        "0",
        vec![domain("A", vec![typedef("Widget", Type::Integer, None)])],
    );
    doc.domains[0].deprecated = true;
    let mut g = Generator::default();
    g.serde(SerdeSupport::Disabled);
    g.deprecated(true);
    let out = g.compile_protocols(&vec![doc], &vec!["doc1".to_string()]).unwrap();
    assert!(out.contains("#[deprecated]\npub mod a {\n"));

    let mut doc2 = protocol(
        "1",
        "0",
        vec![domain("A", vec![typedef("Widget", Type::Integer, None)])],
    );
    doc2.domains[0].deprecated = true;
    let mut g2 = Generator::default();
    g2.serde(SerdeSupport::Disabled);
    let out2 = g2.compile_protocols(&vec![doc2], &vec!["doc1".to_string()]).unwrap();
    assert!(!out2.contains("pub mod a {\n"));
}

#[test]
fn browser_context_holds_its_identifier() {
    let ctx = BrowserContext { id: BrowserContextId { inner: "ctx-1".to_string() } };
    assert_eq!(ctx.id.inner, "ctx-1");
}
