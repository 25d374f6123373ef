//! Unit tests of the mapper table, the casing transformations, and the
//! flag-value serialization round trip.

use gschema_bindgen::compile;
use gschema_bindgen::mapper::map_type_code;
use gschema_bindgen::registry::{flag_deserialize, flag_serialize};
use gschema_bindgen::text::{pascal_bytes, screaming_bytes, snake_bytes};
use gschema_bindgen::GenRequest;

#[test]
fn mapper_covers_every_supported_code() {
    let table: Vec<(&[u8], &[u8], &[u8])> = vec![
        (b"b", b"bool", b"bool"),
        (b"i", b"i32", b"i32"),
        (b"u", b"u32", b"u32"),
        (b"x", b"i64", b"i64"),
        (b"t", b"u64", b"u64"),
        (b"d", b"f64", b"f64"),
        (b"(ii)", b"(i32, i32)", b"(i32, i32)"),
        (b"as", b"&[&str]", b"Vec<String>"),
        (b"s", b"&str", b"String"),
    ];
    for (code, arg, ret) in table {
        let tp = map_type_code(code).unwrap();
        assert_eq!(tp.arg, arg.to_vec());
        assert_eq!(tp.ret, ret.to_vec());
    }
}

#[test]
fn mapper_rejects_everything_else() {
    assert!(map_type_code(b"(ss)").is_none());
    assert!(map_type_code(b"ay").is_none());
    assert!(map_type_code(b"").is_none());
    assert!(map_type_code(b"ii").is_none());
}

#[test]
fn casing_transformations() {
    assert_eq!(pascal_bytes(b"alert-sound"), b"AlertSound".to_vec());
    assert_eq!(pascal_bytes(b"a"), b"A".to_vec());
    assert_eq!(pascal_bytes(b"already_split-twice"), b"AlreadySplitTwice".to_vec());
    assert_eq!(screaming_bytes(b"before-colon"), b"BEFORE_COLON".to_vec());
    assert_eq!(screaming_bytes(b"x"), b"X".to_vec());
    assert_eq!(snake_bytes(b"window-width"), b"window_width".to_vec());
    assert_eq!(snake_bytes(b"plain"), b"plain".to_vec());
}

fn space_style_doc() -> Vec<u8> {
    b"<schemalist><schema id=\"a.b\">
      <key name=\"space-style\" type=\"s\">
        <default>'before-colon'</default>
        <flags>
          <value nick=\"before-colon\"/>
          <value nick=\"before-comma\"/>
          <value nick=\"after-colon\"/>
        </flags>
      </key>
    </schema></schemalist>"
        .to_vec()
}

#[test]
fn flag_union_round_trips_through_serialization() {
    let req = GenRequest { id: None, directives: Vec::new() };
    let out = compile(&space_style_doc(), &req).unwrap();
    let set = &out.sets[0];
    let before_colon = set.variants[0].value;
    let before_comma = set.variants[1].value;
    let union = before_colon | before_comma;
    let nicks = flag_serialize(set, union);
    assert_eq!(nicks, vec![b"before-colon".to_vec(), b"before-comma".to_vec()]);
    let back = flag_deserialize(set, &nicks).unwrap();
    assert_eq!(back, union);
}

#[test]
fn every_flag_subset_round_trips() {
    let req = GenRequest { id: None, directives: Vec::new() };
    let out = compile(&space_style_doc(), &req).unwrap();
    let set = &out.sets[0];
    for v in 0u64..8u64 {
        let nicks = flag_serialize(set, v);
        assert_eq!(flag_deserialize(set, &nicks), Some(v));
    }
}

#[test]
fn unknown_nick_fails_deserialization() {
    let req = GenRequest { id: None, directives: Vec::new() };
    let out = compile(&space_style_doc(), &req).unwrap();
    let set = &out.sets[0];
    let nicks = vec![b"no-such-nick".to_vec()];
    assert_eq!(flag_deserialize(set, &nicks), None);
}

#[test]
fn whitespace_between_elements_is_tolerated() {
    let tight = b"<schemalist><schema id=\"a.b\"><key name=\"k\" type=\"i\"><default>7</default></key></schema></schemalist>".to_vec();
    let loose = b"  <schemalist>\n\t<schema id=\"a.b\">\r\n  <key name=\"k\" type=\"i\">\n    <default>7</default>\n  </key>\n</schema>\n</schemalist>\n"
        .to_vec();
    let req = GenRequest { id: None, directives: Vec::new() };
    let a = compile(&tight, &req).unwrap();
    let b = compile(&loose, &req).unwrap();
    assert_eq!(a, b);
}

#[test]
fn empty_schemalist_is_rejected() {
    let text = b"<schemalist></schemalist>".to_vec();
    let req = GenRequest { id: None, directives: Vec::new() };
    assert!(compile(&text, &req).is_err());
}

#[test]
fn description_without_summary_is_accepted() {
    let text = b"<schemalist><schema id=\"a.b\">
      <key name=\"k\" type=\"i\">
        <default>3</default>
        <description>Only a description.</description>
      </key>
    </schema></schemalist>"
        .to_vec();
    let req = GenRequest { id: None, directives: Vec::new() };
    let out = compile(&text, &req).unwrap();
    assert_eq!(out.specs[0].summary, None);
    assert_eq!(out.specs[0].description, Some(b"Only a description.".to_vec()));
}

#[test]
fn missing_default_is_a_parse_error() {
    let text = b"<schemalist><schema id=\"a.b\">
      <key name=\"k\" type=\"i\"><summary>No default.</summary></key>
    </schema></schemalist>"
        .to_vec();
    let req = GenRequest { id: None, directives: Vec::new() };
    assert!(compile(&text, &req).is_err());
}

#[test]
fn document_order_is_preserved() {
    let text = b"<schemalist><schema id=\"a.b\">
      <key name=\"delta\" type=\"i\"><default>0</default></key>
      <key name=\"alpha\" type=\"i\"><default>0</default></key>
      <key name=\"mid\" type=\"i\"><default>0</default></key>
    </schema></schemalist>"
        .to_vec();
    let req = GenRequest { id: None, directives: Vec::new() };
    let out = compile(&text, &req).unwrap();
    let names: Vec<Vec<u8>> = out.specs.iter().map(|s| s.key_name.clone()).collect();
    assert_eq!(names, vec![b"delta".to_vec(), b"alpha".to_vec(), b"mid".to_vec()]);
}
