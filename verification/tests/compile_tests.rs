use turf_core::compile::handle_style_sheet;
use turf_core::compile::style_sheet;
use turf_core::compile::untracked_dependencies;
use turf_core::compile::CompileError;
use turf_core::compile::EngineOutcome;
use turf_core::compile::ProcessingError;
use turf_core::compile::StyleSheetKind;
use turf_core::paths::PathResolutionError;
use turf_core::settings::Settings;

#[test]
fn scoping_renames_classes_and_respects_excludes() {
    let mut settings = Settings::default();
    settings.minify = false;
    settings.class_names.excludes = vec![String::from("keep-me")];
    let css = String::from(".keep-me { color: red; }\n.rename-me { color: blue; }\n");

    let compiled = style_sheet(
        StyleSheetKind::Inline(css.clone()),
        &settings,
        EngineOutcome::Css(css),
    )
    .unwrap();

    let mut saw_keep = false;
    let mut saw_rename = false;
    for (original, generated) in &compiled.class_names {
        if original == "keep-me" {
            saw_keep = true;
            assert_eq!(generated, "keep-me");
            assert!(compiled.css.contains(".keep-me"));
        }
        if original == "rename-me" {
            saw_rename = true;
            assert_ne!(generated, "rename-me");
            // The template marker was substituted: the generated name is not
            // the literal template, and it keeps the template's prefix.
            assert_ne!(generated, "class-<id>");
            assert!(generated.starts_with("class-"));
            assert!(compiled.css.contains(generated.as_str()));
        }
    }
    assert!(saw_keep);
    assert!(saw_rename);
}

#[test]
fn inline_stylesheet_compiles_through_both_engines() {
    let scss = "$c: red;\n.test-class { color: $c; }";
    let raw_css = grass::from_string(scss.to_string(), &grass::Options::default()).unwrap();

    let settings = Settings::default();
    let compiled = style_sheet(
        StyleSheetKind::Inline(scss.to_string()),
        &settings,
        EngineOutcome::Css(raw_css),
    )
    .unwrap();

    assert_eq!(compiled.class_names.len(), 1);
    assert_eq!(compiled.class_names[0].0, "test-class");
    // The default settings minify the output.
    assert!(compiled.css.contains("color:red"));
}

#[test]
fn reports_each_dependency_exactly_once() {
    let partial = String::from("/tmp/styles/_partial.scss");
    let primary = String::from("/tmp/styles/main.scss");
    // The same partial is consulted twice by repeated imports.
    let observed = vec![partial.clone(), partial.clone()];

    let deps = untracked_dependencies(&observed, Some(&primary));

    assert_eq!(deps.len(), 2);
    assert!(deps.contains(&partial));
    assert!(deps.contains(&primary));
}

#[test]
fn primary_file_is_not_duplicated_in_the_dependency_set() {
    let primary = String::from("/tmp/styles/main.scss");
    let observed = vec![primary.clone(), primary.clone()];
    let deps = untracked_dependencies(&observed, Some(&primary));
    assert_eq!(deps, vec![primary]);
}

#[test]
fn inline_sources_add_no_primary_dependency() {
    let settings = Settings::default();
    let processed = handle_style_sheet(
        StyleSheetKind::Inline(String::from(".a { color: red; }")),
        &settings,
        EngineOutcome::Css(String::from(".a { color: red; }")),
        Ok(Vec::new()),
    )
    .unwrap();
    assert!(processed.untracked_load_paths.is_empty());
}

#[test]
fn file_sources_report_the_primary_file() {
    let settings = Settings::default();
    let processed = handle_style_sheet(
        StyleSheetKind::File(String::from("/tmp/styles/main.scss")),
        &settings,
        EngineOutcome::Css(String::from(".a { color: red; }")),
        Ok(vec![String::from("/tmp/styles/_partial.scss")]),
    )
    .unwrap();
    assert_eq!(
        processed.untracked_load_paths,
        vec![
            String::from("/tmp/styles/_partial.scss"),
            String::from("/tmp/styles/main.scss"),
        ]
    );
}

#[test]
fn engine_failures_become_stylesheet_compilation_errors() {
    let settings = Settings::default();
    let e = handle_style_sheet(
        StyleSheetKind::Inline(String::from("not scss")),
        &settings,
        EngineOutcome::EngineFailure(String::from("unexpected token")),
        Ok(Vec::new()),
    )
    .unwrap_err();
    match e {
        ProcessingError::Turf(CompileError::StylesheetCompilation(d)) => {
            assert_eq!(d, "unexpected token");
        }
        other => panic!("wrong error channel: {:?}", other),
    }
}

#[test]
fn path_failures_abort_the_compilation() {
    let settings = Settings::default();
    let e = handle_style_sheet(
        StyleSheetKind::Inline(String::from(".a {}")),
        &settings,
        EngineOutcome::PathFailure(PathResolutionError {
            path: String::from("/missing"),
            details: String::from("No such file or directory"),
        }),
        Ok(Vec::new()),
    )
    .unwrap_err();
    match e {
        ProcessingError::Turf(CompileError::PathResolution(p)) => {
            assert_eq!(p.path, "/missing");
        }
        other => panic!("wrong error channel: {:?}", other),
    }
}

#[test]
fn tracking_failures_use_their_own_channel() {
    let settings = Settings::default();
    let e = handle_style_sheet(
        StyleSheetKind::Inline(String::from(".a { color: red; }")),
        &settings,
        EngineOutcome::Css(String::from(".a { color: red; }")),
        Err(String::from("tracking state poisoned")),
    )
    .unwrap_err();
    match e {
        ProcessingError::LoadPathTracking(t) => {
            assert_eq!(t.details, "tracking state poisoned");
        }
        other => panic!("wrong error channel: {:?}", other),
    }
}

#[test]
fn malformed_css_is_a_transform_error() {
    let settings = Settings::default();
    let e = style_sheet(
        StyleSheetKind::Inline(String::from("not css at all {{{{")),
        &settings,
        EngineOutcome::Css(String::from("not css at all {{{{")),
    )
    .unwrap_err();
    match e {
        CompileError::Transform(d) => assert!(!d.is_empty()),
        other => panic!("wrong error kind: {:?}", other),
    }
}

#[test]
fn empty_template_is_a_transform_error() {
    let mut settings = Settings::default();
    settings.class_names.template = String::new();
    let e = style_sheet(
        StyleSheetKind::Inline(String::from(".a { color: red; }")),
        &settings,
        EngineOutcome::Css(String::from(".a { color: red; }")),
    )
    .unwrap_err();
    match e {
        CompileError::Transform(d) => assert!(d.contains("empty")),
        other => panic!("wrong error kind: {:?}", other),
    }
}

#[test]
fn engine_reserved_placeholders_are_a_transform_error() {
    // The engine panics on a `[name]` segment when no filename is set; the
    // template is rejected before the engine ever sees it.
    let mut settings = Settings::default();
    settings.class_names.template = String::from("x[name]-<id>");
    let e = style_sheet(
        StyleSheetKind::Inline(String::from(".a { color: red; }")),
        &settings,
        EngineOutcome::Css(String::from(".a { color: red; }")),
    )
    .unwrap_err();
    match e {
        CompileError::Transform(d) => assert!(d.contains("placeholder")),
        other => panic!("wrong error kind: {:?}", other),
    }

    settings.class_names.template = String::from("x[content-hash]-<id>");
    let e = style_sheet(
        StyleSheetKind::Inline(String::from(".a { color: red; }")),
        &settings,
        EngineOutcome::Css(String::from(".a { color: red; }")),
    )
    .unwrap_err();
    assert!(matches!(e, CompileError::Transform(_)));
}

#[test]
fn dependency_list_keeps_first_occurrence_order() {
    let a = String::from("/tmp/styles/_a.scss");
    let b = String::from("/tmp/styles/_b.scss");
    let primary = String::from("/tmp/styles/main.scss");
    let observed = vec![b.clone(), a.clone(), b.clone()];
    let deps = untracked_dependencies(&observed, Some(&primary));
    assert_eq!(deps, vec![b, a, primary]);
}
