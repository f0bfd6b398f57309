use pdl_gen::ir::Variant;
use pdl_gen::names::{field_name, split_qualified, subenum_name, ty_name};
use pdl_gen::wire::{parse_wire_str, variant_wire_str};

fn var(name: &str) -> Variant {
    Variant { name: name.to_string(), description: None }
}

#[test]
fn field_name_snake_cases_and_escapes() {
    assert_eq!(field_name("backgroundColor"), "background_color");
    assert_eq!(field_name("type"), "r#type");
    assert_eq!(field_name("mod"), "r#mod");
    assert_eq!(field_name("override"), "r#override");
    assert_eq!(field_name("url"), "url");
}

#[test]
fn ty_name_camel_cases_and_escapes() {
    assert_eq!(ty_name("script_id"), "ScriptId");
    assert_eq!(ty_name("frameNavigated"), "FrameNavigated");
}

#[test]
fn subenum_name_joins_parent_and_field() {
    assert_eq!(subenum_name("DoThing", "x"), "DoThingX");
    assert_eq!(subenum_name("do_thing", "x"), "DoThingX");
    assert_eq!(subenum_name("Page", "transferMode"), "PageTransferMode");
}

#[test]
fn split_qualified_takes_last_dot() {
    let (prefix, local) = split_qualified("Runtime.ScriptId");
    assert_eq!(prefix.as_deref(), Some("Runtime"));
    assert_eq!(local, "ScriptId");

    let (prefix, local) = split_qualified("ScriptId");
    assert!(prefix.is_none());
    assert_eq!(local, "ScriptId");
}

#[test]
fn wire_round_trip_on_valid_strings() {
    let variants = vec![var("allow"), var("deny"), var("prompt")];
    let idx = parse_wire_str(&variants, "deny").unwrap();
    assert_eq!(idx, 1);
    assert_eq!(variant_wire_str(&variants, idx), "deny");
    let idx = parse_wire_str(&variants, "allow").unwrap();
    assert_eq!(variant_wire_str(&variants, idx), "allow");
}

#[test]
fn wire_parse_error_carries_the_string() {
    let variants = vec![var("allow"), var("deny")];
    let err = parse_wire_str(&variants, "reject").unwrap_err();
    assert_eq!(err, "reject");
}
