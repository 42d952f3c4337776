use turf_core::codegen::binding_doc;
use turf_core::codegen::class_constants;
use turf_core::codegen::class_fields;
use turf_core::codegen::render_diagnostic;

#[test]
fn test() {
    let classes = vec![(String::from("test-class"), String::from("abc-123"))];

    let out = class_constants(&classes).unwrap();

    assert_eq!(
        out,
        vec![(String::from("TEST_CLASS"), String::from("abc-123"))]
    );
    assert_eq!(binding_doc(&out), "TEST_CLASS = \"abc-123\"\n");
}

#[test]
fn field_identifiers_use_snake_case() {
    let classes = vec![(String::from("test-class"), String::from("abc-123"))];
    let out = class_fields(&classes).unwrap();
    assert_eq!(
        out,
        vec![(String::from("test_class"), String::from("abc-123"))]
    );
}

#[test]
fn colliding_identifiers_are_a_build_failure() {
    let classes = vec![
        (String::from("test-class"), String::from("a")),
        (String::from("test class"), String::from("b")),
    ];
    let e = class_constants(&classes).unwrap_err();
    assert_eq!(e.ident, "TEST_CLASS");
    assert_eq!(
        e.message(),
        "class names collide after the casing transform: TEST_CLASS"
    );
}

#[test]
fn binding_doc_lists_every_binding_in_order() {
    let entries = vec![
        (String::from("A"), String::from("x")),
        (String::from("B"), String::from("y")),
    ];
    assert_eq!(binding_doc(&entries), "A = \"x\"\nB = \"y\"\n");
}

#[test]
fn diagnostics_carry_the_whole_cause_chain() {
    let causes = vec![String::from("syntax error"), String::from("line 3")];
    assert_eq!(
        render_diagnostic(&String::from("compilation failed"), &causes),
        "Error: compilation failed\nCaused by:\n    syntax error\n    line 3"
    );
}

#[test]
fn diagnostics_without_causes_stay_on_one_line() {
    let causes: Vec<String> = Vec::new();
    assert_eq!(
        render_diagnostic(&String::from("boom"), &causes),
        "Error: boom"
    );
}
