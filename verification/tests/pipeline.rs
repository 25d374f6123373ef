//! End-to-end tests of the schema compiler: parsing, definition selection,
//! override resolution, value-set generation, and the accessor bundles.

use gschema_bindgen::compile;
use gschema_bindgen::error::Error;
use gschema_bindgen::model::ChoiceKind;
use gschema_bindgen::resolve::{Directive, Selector};
use gschema_bindgen::GenRequest;

fn doc_one_schema() -> Vec<u8> {
    b"<schemalist>
  <schema id=\"org.example.app\">
    <key name=\"window-width\" type=\"i\">
      <default>100</default>
      <summary>Window width</summary>
      <description>The last saved window width.</description>
    </key>
    <key name=\"is-maximized\" type=\"b\">
      <default>false</default>
    </key>
  </schema>
</schemalist>"
        .to_vec()
}

fn plain_request() -> GenRequest {
    GenRequest { id: None, directives: Vec::new() }
}

#[test]
fn basic_document_compiles() {
    let out = compile(&doc_one_schema(), &plain_request()).unwrap();
    assert_eq!(out.schema_id, b"org.example.app".to_vec());
    assert_eq!(out.specs.len(), 2);
    assert_eq!(out.sets.len(), 0);
}

#[test]
fn method_names_are_derived_from_key_name() {
    let out = compile(&doc_one_schema(), &plain_request()).unwrap();
    let sp = &out.specs[0];
    assert_eq!(sp.key_name, b"window-width".to_vec());
    assert_eq!(sp.setter, b"set_window_width".to_vec());
    assert_eq!(sp.try_setter, b"try_set_window_width".to_vec());
    assert_eq!(sp.getter, b"window_width".to_vec());
    assert_eq!(sp.connect, b"connect_window_width_changed".to_vec());
    assert_eq!(sp.binder, b"bind_window_width".to_vec());
    assert_eq!(sp.action, b"create_window_width_action".to_vec());
}

#[test]
fn documentation_is_carried_over() {
    let out = compile(&doc_one_schema(), &plain_request()).unwrap();
    let sp = &out.specs[0];
    assert_eq!(sp.summary, Some(b"Window width".to_vec()));
    assert_eq!(sp.description, Some(b"The last saved window width.".to_vec()));
    assert_eq!(sp.default_doc, b"100".to_vec());
    let sp2 = &out.specs[1];
    assert_eq!(sp2.summary, None);
    assert_eq!(sp2.default_doc, b"false".to_vec());
}

#[test]
fn type_codes_map_to_declared_types() {
    let out = compile(&doc_one_schema(), &plain_request()).unwrap();
    assert_eq!(out.specs[0].arg_type, b"i32".to_vec());
    assert_eq!(out.specs[0].ret_type, b"i32".to_vec());
    assert_eq!(out.specs[1].arg_type, b"bool".to_vec());
    assert_eq!(out.specs[1].ret_type, b"bool".to_vec());
}

#[test]
fn generation_is_idempotent() {
    let text = doc_one_schema();
    let out1 = compile(&text, &plain_request()).unwrap();
    let out2 = compile(&text, &plain_request()).unwrap();
    assert_eq!(out1, out2);
}

#[test]
fn readonly_keys_are_annotated() {
    let text = b"<schemalist><schema id=\"a.b\">
      <key name=\"greeting\" type=\"s\" readonly=\"true\"><default>'hi'</default></key>
    </schema></schemalist>"
        .to_vec();
    let out = compile(&text, &plain_request()).unwrap();
    assert!(out.specs[0].readonly);
    assert_eq!(out.specs[0].arg_type, b"&str".to_vec());
    assert_eq!(out.specs[0].ret_type, b"String".to_vec());
}

#[test]
fn malformed_document_is_a_parse_error() {
    let text = b"<schemalist><schema id=\"a.b\">".to_vec();
    let err = compile(&text, &plain_request()).unwrap_err();
    assert_eq!(err, Error::Parse);
}

#[test]
fn trailing_garbage_is_a_parse_error() {
    let mut text = doc_one_schema();
    text.extend_from_slice(b"tail");
    let err = compile(&text, &plain_request()).unwrap_err();
    assert_eq!(err, Error::Parse);
}

#[test]
fn single_definition_is_selected_without_id() {
    let out = compile(&doc_one_schema(), &plain_request()).unwrap();
    assert_eq!(out.schema_id, b"org.example.app".to_vec());
}

#[test]
fn two_definitions_without_id_are_ambiguous() {
    let text = b"<schemalist>
      <schema id=\"a.one\"><key name=\"k\" type=\"i\"><default>0</default></key></schema>
      <schema id=\"a.two\"><key name=\"k\" type=\"i\"><default>0</default></key></schema>
    </schemalist>"
        .to_vec();
    let err = compile(&text, &plain_request()).unwrap_err();
    assert_eq!(err, Error::AmbiguousSchema { count: 2 });
}

#[test]
fn pinned_id_selects_among_definitions() {
    let text = b"<schemalist>
      <schema id=\"a.one\"><key name=\"k\" type=\"i\"><default>0</default></key></schema>
      <schema id=\"a.two\"><key name=\"k\" type=\"b\"><default>true</default></key></schema>
    </schemalist>"
        .to_vec();
    let req = GenRequest { id: Some(b"a.two".to_vec()), directives: Vec::new() };
    let out = compile(&text, &req).unwrap();
    assert_eq!(out.schema_id, b"a.two".to_vec());
    assert_eq!(out.specs[0].arg_type, b"bool".to_vec());
}

#[test]
fn unknown_id_is_schema_not_found() {
    let req = GenRequest { id: Some(b"no.such".to_vec()), directives: Vec::new() };
    let err = compile(&doc_one_schema(), &req).unwrap_err();
    assert_eq!(err, Error::SchemaNotFound { id: b"no.such".to_vec() });
}

#[test]
fn duplicate_key_names_are_rejected() {
    let text = b"<schemalist><schema id=\"a.b\">
      <key name=\"k\" type=\"i\"><default>0</default></key>
      <key name=\"k\" type=\"b\"><default>true</default></key>
    </schema></schemalist>"
        .to_vec();
    let err = compile(&text, &plain_request()).unwrap_err();
    assert_eq!(err, Error::DuplicateKey { name: b"k".to_vec() });
}

#[test]
fn unmapped_type_code_is_fatal() {
    let text = b"<schemalist><schema id=\"a.b\">
      <key name=\"pair\" type=\"(ss)\"><default>('a','b')</default></key>
    </schema></schemalist>"
        .to_vec();
    let err = compile(&text, &plain_request()).unwrap_err();
    assert_eq!(err, Error::UnmappedType { key: b"pair".to_vec(), code: b"(ss)".to_vec() });
}

#[test]
fn skip_directive_removes_exactly_the_named_key() {
    let text = b"<schemalist><schema id=\"a.b\">
      <key name=\"a\" type=\"i\"><default>0</default></key>
      <key name=\"b\" type=\"i\"><default>0</default></key>
      <key name=\"c\" type=\"i\"><default>0</default></key>
    </schema></schemalist>"
        .to_vec();
    let req = GenRequest {
        id: None,
        directives: vec![Directive::Skip { selector: Selector::KeyName(b"b".to_vec()) }],
    };
    let out = compile(&text, &req).unwrap();
    assert_eq!(out.specs.len(), 2);
    assert_eq!(out.specs[0].key_name, b"a".to_vec());
    assert_eq!(out.specs[1].key_name, b"c".to_vec());
}

#[test]
fn skip_by_signature_removes_all_keys_of_that_code() {
    let text = b"<schemalist><schema id=\"a.b\">
      <key name=\"a\" type=\"i\"><default>0</default></key>
      <key name=\"b\" type=\"(ss)\"><default>('x','y')</default></key>
    </schema></schemalist>"
        .to_vec();
    let req = GenRequest {
        id: None,
        directives: vec![Directive::Skip { selector: Selector::Signature(b"(ss)".to_vec()) }],
    };
    let out = compile(&text, &req).unwrap();
    assert_eq!(out.specs.len(), 1);
    assert_eq!(out.specs[0].key_name, b"a".to_vec());
}

#[test]
fn define_by_signature_overrides_the_mapper() {
    let text = b"<schemalist><schema id=\"a.b\">
      <key name=\"string-tuple\" type=\"(ss)\"><default>('a','b')</default></key>
    </schema></schemalist>"
        .to_vec();
    let req = GenRequest {
        id: None,
        directives: vec![Directive::Define {
            selector: Selector::Signature(b"(ss)".to_vec()),
            arg: b"(&str, &str)".to_vec(),
            ret: b"(String, String)".to_vec(),
        }],
    };
    let out = compile(&text, &req).unwrap();
    assert_eq!(out.specs[0].arg_type, b"(&str, &str)".to_vec());
    assert_eq!(out.specs[0].ret_type, b"(String, String)".to_vec());
}

#[test]
fn define_by_name_beats_define_by_signature() {
    let text = b"<schemalist><schema id=\"a.b\">
      <key name=\"cache-dir\" type=\"s\"><default>'/tmp'</default></key>
    </schema></schemalist>"
        .to_vec();
    let req = GenRequest {
        id: None,
        directives: vec![
            Directive::Define {
                selector: Selector::Signature(b"s".to_vec()),
                arg: b"T2".to_vec(),
                ret: b"U2".to_vec(),
            },
            Directive::Define {
                selector: Selector::KeyName(b"cache-dir".to_vec()),
                arg: b"&Path".to_vec(),
                ret: b"PathBuf".to_vec(),
            },
        ],
    };
    let out = compile(&text, &req).unwrap();
    assert_eq!(out.specs[0].arg_type, b"&Path".to_vec());
    assert_eq!(out.specs[0].ret_type, b"PathBuf".to_vec());
}

#[test]
fn skip_beats_define_for_the_same_key() {
    let text = b"<schemalist><schema id=\"a.b\">
      <key name=\"k\" type=\"i\"><default>0</default></key>
    </schema></schemalist>"
        .to_vec();
    let req = GenRequest {
        id: None,
        directives: vec![
            Directive::Define {
                selector: Selector::KeyName(b"k".to_vec()),
                arg: b"T".to_vec(),
                ret: b"U".to_vec(),
            },
            Directive::Skip { selector: Selector::KeyName(b"k".to_vec()) },
        ],
    };
    let out = compile(&text, &req).unwrap();
    assert_eq!(out.specs.len(), 0);
}

#[test]
fn two_defines_on_one_key_conflict() {
    let text = b"<schemalist><schema id=\"a.b\">
      <key name=\"k\" type=\"i\"><default>0</default></key>
    </schema></schemalist>"
        .to_vec();
    let req = GenRequest {
        id: None,
        directives: vec![
            Directive::Define {
                selector: Selector::KeyName(b"k".to_vec()),
                arg: b"T1".to_vec(),
                ret: b"U1".to_vec(),
            },
            Directive::Define {
                selector: Selector::KeyName(b"k".to_vec()),
                arg: b"T2".to_vec(),
                ret: b"U2".to_vec(),
            },
        ],
    };
    let err = compile(&text, &req).unwrap_err();
    assert_eq!(err, Error::ConflictingOverride { key: b"k".to_vec() });
}

#[test]
fn enum_keys_use_the_generated_type() {
    let text = b"<schemalist><schema id=\"a.b\">
      <key name=\"alert-sound\" type=\"s\">
        <default>'glass'</default>
        <enum>
          <value nick=\"glass\"/>
          <value nick=\"bark\"/>
          <value nick=\"drip\"/>
        </enum>
      </key>
    </schema></schemalist>"
        .to_vec();
    let out = compile(&text, &plain_request()).unwrap();
    assert_eq!(out.specs[0].arg_type, b"AlertSound".to_vec());
    assert_eq!(out.specs[0].ret_type, b"AlertSound".to_vec());
    assert_eq!(out.sets.len(), 1);
    let set = &out.sets[0];
    assert_eq!(set.type_ident, b"AlertSound".to_vec());
    assert_eq!(set.kind, ChoiceKind::Enumeration);
    assert_eq!(set.variants.len(), 3);
    assert_eq!(set.variants[0].ident, b"Glass".to_vec());
    assert_eq!(set.variants[1].ident, b"Bark".to_vec());
    assert_eq!(set.variants[2].ident, b"Drip".to_vec());
    assert_eq!(set.variants[0].value, 0);
    assert_eq!(set.variants[1].value, 1);
    assert_eq!(set.variants[2].value, 2);
}

#[test]
fn flag_nicks_become_screaming_snake_constants() {
    let text = b"<schemalist><schema id=\"a.b\">
      <key name=\"space-style\" type=\"s\">
        <default>'before-colon'</default>
        <flags>
          <value nick=\"before-colon\"/>
          <value nick=\"before-comma\"/>
        </flags>
      </key>
    </schema></schemalist>"
        .to_vec();
    let out = compile(&text, &plain_request()).unwrap();
    let set = &out.sets[0];
    assert_eq!(set.kind, ChoiceKind::Flags);
    assert_eq!(set.type_ident, b"SpaceStyle".to_vec());
    assert_eq!(set.variants[0].ident, b"BEFORE_COLON".to_vec());
    assert_eq!(set.variants[1].ident, b"BEFORE_COMMA".to_vec());
    assert_eq!(set.variants[0].value, 1);
    assert_eq!(set.variants[1].value, 2);
}

#[test]
fn colliding_nicks_are_a_duplicate_variant() {
    let text = b"<schemalist><schema id=\"a.b\">
      <key name=\"mode\" type=\"s\">
        <default>'a-b'</default>
        <enum>
          <value nick=\"a-b\"/>
          <value nick=\"a_b\"/>
        </enum>
      </key>
    </schema></schemalist>"
        .to_vec();
    let err = compile(&text, &plain_request()).unwrap_err();
    assert_eq!(err, Error::DuplicateVariant { set: b"Mode".to_vec(), ident: b"AB".to_vec() });
}

#[test]
fn too_many_flag_nicks_overflow() {
    let mut text = Vec::new();
    text.extend_from_slice(
        b"<schemalist><schema id=\"a.b\"><key name=\"big\" type=\"s\"><default>'f0'</default><flags>",
    );
    for i in 0..33 {
        text.extend_from_slice(format!("<value nick=\"f{}\"/>", i).as_bytes());
    }
    text.extend_from_slice(b"</flags></key></schema></schemalist>");
    let err = compile(&text, &plain_request()).unwrap_err();
    assert_eq!(err, Error::FlagOverflow { set: b"Big".to_vec(), count: 33 });
}

#[test]
fn thirty_two_flag_nicks_fit() {
    let mut text = Vec::new();
    text.extend_from_slice(
        b"<schemalist><schema id=\"a.b\"><key name=\"big\" type=\"s\"><default>'f0'</default><flags>",
    );
    for i in 0..32 {
        text.extend_from_slice(format!("<value nick=\"f{}\"/>", i).as_bytes());
    }
    text.extend_from_slice(b"</flags></key></schema></schemalist>");
    let out = compile(&text, &plain_request()).unwrap();
    let set = &out.sets[0];
    assert_eq!(set.variants.len(), 32);
    assert_eq!(set.variants[31].value, 1u64 << 31);
}

#[test]
fn define_overrides_the_enum_redirection() {
    let text = b"<schemalist><schema id=\"a.b\">
      <key name=\"mode\" type=\"s\">
        <default>'fast'</default>
        <enum><value nick=\"fast\"/><value nick=\"slow\"/></enum>
      </key>
    </schema></schemalist>"
        .to_vec();
    let req = GenRequest {
        id: None,
        directives: vec![Directive::Define {
            selector: Selector::KeyName(b"mode".to_vec()),
            arg: b"&str".to_vec(),
            ret: b"String".to_vec(),
        }],
    };
    let out = compile(&text, &req).unwrap();
    assert_eq!(out.specs[0].arg_type, b"&str".to_vec());
    assert_eq!(out.specs[0].ret_type, b"String".to_vec());
}
