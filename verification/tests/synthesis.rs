use pdl_gen::generator::{generate_enum_str_fns, Generator};
use pdl_gen::ir::{
    Command, Domain, DomainDatatype, Param, Type, TypeDef, TypeItem, Variant,
};
use pdl_gen::serde_support::SerdeSupport;

fn param(name: &str, ty: Type, optional: bool) -> Param {
    Param {
        name: name.to_string(),
        description: None,
        optional,
        deprecated: false,
        experimental: false,
        ty,
    }
}

fn domain(name: &str) -> Domain {
    Domain {
        name: name.to_string(),
        description: None,
        deprecated: false,
        experimental: false,
        datatypes: Vec::new(),
    }
}

fn typedef(name: &str, extends: Type, item: Option<TypeItem>) -> DomainDatatype {
    DomainDatatype::TypeDef(TypeDef {
        name: name.to_string(),
        description: None,
        deprecated: false,
        experimental: false,
        extends,
        item,
    })
}

fn plain_generator() -> Generator {
    let mut g = Generator::default();
    g.serde(SerdeSupport::Disabled);
    g
}

#[test]
fn integer_alias_becomes_hashable_wrapper() {
    let mut g = plain_generator();
    let d = domain("Foo");
    let dt = typedef("Bar", Type::Integer, None);
    let out = g.generate_type(&d, &dt).unwrap();
    let expected = "#[derive(Debug, Clone, PartialEq, Default)]\n#[derive(Eq, Hash)]\npub struct Bar(i64);\nimpl Bar {\npub const IDENTIFIER: &'static str = \"Foo.Bar\";\n}\n";
    assert_eq!(out, expected);
    assert_eq!(g.type_size.get(&"Bar".to_string()), Some(8));
}

#[test]
fn string_alias_gets_string_view_accessor() {
    let mut g = plain_generator();
    let d = domain("Foo");
    let dt = typedef("Name", Type::Str, None);
    let out = g.generate_type(&d, &dt).unwrap();
    assert!(out.contains("#[derive(Eq, Hash)]\npub struct Name(String);\n"));
    assert!(out.contains("impl AsRef<str> for Name {\nfn as_ref(&self) -> &str {\nself.0.as_str()\n}\n}\n"));
}

#[test]
fn self_referential_field_is_boxed() {
    let mut g = plain_generator();
    let d = domain("Foo");
    let dt = typedef(
        "Node",
        Type::Object,
        Some(TypeItem::Properties(vec![param("child", Type::Ref("Node".to_string()), false)])),
    );
    let out = g.generate_type(&d, &dt).unwrap();
    assert!(out.contains("pub child: Box<Node>,\n"));
    assert!(!out.contains("pub child: Node,"));
}

#[test]
fn array_of_self_reference_is_not_boxed() {
    let mut g = plain_generator();
    let d = domain("Foo");
    let dt = typedef(
        "Tree",
        Type::Object,
        Some(TypeItem::Properties(vec![param(
            "children",
            Type::ArrayOf(Box::new(Type::Ref("Tree".to_string()))),
            false,
        )])),
    );
    let out = g.generate_type(&d, &dt).unwrap();
    assert!(out.contains("pub children: Vec<Tree>,\n"));
}

#[test]
fn inline_enum_is_hoisted_with_parent_and_field_name() {
    let mut g = plain_generator();
    let d = domain("Foo");
    let cmd = DomainDatatype::Command(Command {
        name: "DoThing".to_string(),
        description: None,
        deprecated: false,
        experimental: false,
        parameters: vec![param(
            "x",
            Type::Enum(vec![
                Variant { name: "on".to_string(), description: None },
                Variant { name: "off".to_string(), description: None },
            ]),
            false,
        )],
        returns: Vec::new(),
    });
    let out = g.generate_type(&d, &cmd).unwrap();
    assert!(out.contains("pub enum DoThingX {\n"));
    assert!(out.contains("pub x: DoThingX,\n"));
    assert!(out.contains("impl chromeoxid_types::Command for DoThing {\ntype Response = DoThingReturns;\n}\n"));
    assert!(out.contains("pub struct DoThingReturns {}\n"));
    assert_eq!(g.type_size.get(&"DoThingX".to_string()), Some(16));
    assert_eq!(g.type_size.get(&"DoThingReturns".to_string()), Some(0));
}

#[test]
fn generated_enum_text_with_wire_conversions() {
    let mut g = plain_generator();
    let ident = Variant { name: "mood".to_string(), description: None };
    let variants = vec![
        Variant { name: "happy".to_string(), description: None },
        Variant { name: "sad".to_string(), description: None },
    ];
    let out = g.generate_enum(&ident, &variants);
    let expected = "#[derive(Debug, Clone, PartialEq, Eq, Hash)]\npub enum Mood {\nHappy,\nSad,\n}\nimpl Mood {\npub fn as_str(&self) -> &'static str {\nmatch self {\nMood::Happy => \"happy\",\nMood::Sad => \"sad\",\n}\n}\n}\nimpl ::std::str::FromStr for Mood {\ntype Err = String;\nfn from_str(s: &str) -> Result<Self, Self::Err> {\nmatch s {\n\"happy\" => Ok(Mood::Happy),\n\"sad\" => Ok(Mood::Sad),\n_ => Err(s.to_string())\n}\n}\n}\n";
    assert_eq!(out, expected);
    assert_eq!(g.type_size.get(&"Mood".to_string()), Some(16));
}

#[test]
fn enum_str_fns_text_alone() {
    let variants = vec![Variant { name: "ok".to_string(), description: None }];
    let out = generate_enum_str_fns("Status", &variants);
    assert!(out.contains("Status::Ok => \"ok\",\n"));
    assert!(out.contains("\"ok\" => Ok(Status::Ok),\n"));
    assert!(out.contains("_ => Err(s.to_string())\n"));
}

#[test]
fn builder_requires_mandatory_and_chains_optional() {
    let mut g = plain_generator();
    let d = domain("Foo");
    let dt = typedef("Thing", Type::Object, None);
    let params = vec![
        param("id", Type::Str, false),
        param("note", Type::Str, true),
    ];
    let out = g.generate_struct(&d, &dt, "Thing".to_string(), &params).unwrap();
    assert!(out.contains("pub struct Thing {\npub id: String,\npub note: Option<String>,\n}\n"));
    assert!(out.contains("pub struct ThingBuilder {\nid: String,\nnote: Option<String>,\n}\n"));
    assert!(out.contains("pub fn new(id: String, ) -> ThingBuilder {\nThingBuilder {\nid,\nnote: None,\n}\n}\n"));
    assert!(out.contains("pub fn note(mut self, note: String) -> ThingBuilder {\nself.note = Some(note);\nself\n}\n"));
    assert!(out.contains("pub fn build(self) -> Thing {\nThing {\nid: self.id,\nnote: self.note,\n}\n}\n"));
    assert!(out.contains("#[derive(Debug, Clone, PartialEq)]\n"));
    assert!(!out.contains("Default)]"));
}

#[test]
fn all_optional_struct_derives_default() {
    let mut g = plain_generator();
    let d = domain("Foo");
    let dt = typedef("Opts", Type::Object, None);
    let params = vec![param("note", Type::Str, true)];
    let out = g.generate_struct(&d, &dt, "Opts".to_string(), &params).unwrap();
    assert!(out.contains("#[derive(Debug, Clone, PartialEq, Default)]\n"));
}

#[test]
fn deprecated_and_experimental_params_are_filtered() {
    let mut g = plain_generator();
    let d = domain("Foo");
    let dt = typedef("Conf", Type::Object, None);
    let mut old_param = param("legacy", Type::Str, false);
    old_param.deprecated = true;
    let mut exp_param = param("fresh", Type::Str, false);
    exp_param.experimental = true;
    let params = vec![param("kept", Type::Str, false), old_param, exp_param];
    g.deprecated(false);
    g.experimental(false);
    let out = g.generate_struct(&d, &dt, "Conf".to_string(), &params).unwrap();
    assert!(out.contains("pub kept: String,\n"));
    assert!(!out.contains("legacy"));
    assert!(!out.contains("fresh"));
}

#[test]
fn serde_attribute_emitters() {
    let on = SerdeSupport::AlwaysOn;
    assert_eq!(on.tag("method"), "#[serde(tag = \"method\")]\n");
    assert_eq!(on.generate_serde_imports(), "use serde::{Serialize, Deserialize};\n");
    assert_eq!(
        on.generate_opt_field_attr(),
        "#[serde(skip_serializing_if = \"Option::is_none\")]\n"
    );
    assert_eq!(on.generate_enum_rename("DOM.attributeModified"), "#[serde(rename = \"DOM.attributeModified\")]\n");
    let gated = SerdeSupport::with_feature("serde0".to_string());
    assert_eq!(
        gated.generate_serde_imports(),
        "#[cfg(feature = \"serde0\")]\nuse serde::{Serialize, Deserialize};\n"
    );
    assert_eq!(
        gated.tag("method"),
        "#[cfg_attr(feature = \"serde0\", serde(tag = \"method\"))]\n"
    );
    assert_eq!(
        gated.generate_enum_rename("DOM.attributeModified"),
        "#[cfg_attr(feature = \"serde0\", serde(rename = \"DOM.attributeModified\"))]\n"
    );
    assert_eq!(
        gated.generate_event_derives(),
        "#[cfg_attr(feature = \"serde0\", derive(Serialize, Deserialize))]\n#[derive(Debug, Clone, PartialEq)]\n"
    );
    assert_eq!(
        on.generate_event_derives(),
        "#[derive(Serialize, Deserialize, Debug, Clone, PartialEq)]\n"
    );
    let off = SerdeSupport::Disabled;
    assert_eq!(off.tag("method"), "");
    assert_eq!(off.generate_serde_imports(), "");
    assert_eq!(off.generate_event_derives(), "#[derive(Debug, Clone, PartialEq)]\n");
}

#[test]
fn optional_field_gets_skip_attribute_under_serde() {
    let mut g = Generator::default();
    let d = domain("Foo");
    let dt = typedef("Thing", Type::Object, None);
    let params = vec![param("note", Type::Str, true)];
    let out = g.generate_struct(&d, &dt, "Thing".to_string(), &params).unwrap();
    assert!(out.contains(
        "#[serde(skip_serializing_if = \"Option::is_none\")]\npub note: Option<String>,\n"
    ));
}
