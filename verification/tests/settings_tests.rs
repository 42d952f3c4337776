use turf_core::settings::ClassNameGeneration;
use turf_core::settings::ManifestError;
use turf_core::settings::ManifestProfiles;
use turf_core::settings::Settings;
use turf_core::settings::SettingsStore;

#[test]
fn use_dev_settings_for_debug_build() {
    let mut dev_settings = Settings::default();
    let class_name_generation = ClassNameGeneration {
        template: String::from("abc"),
        ..Default::default()
    };
    dev_settings.class_names = class_name_generation;

    let mut prod_settings = Settings::default();
    let class_name_generation = ClassNameGeneration {
        template: String::from("def"),
        ..Default::default()
    };
    prod_settings.class_names = class_name_generation;

    let selected_settings =
        Settings::choose_settings(Some(dev_settings.clone()), Some(prod_settings), true);

    assert_eq!(selected_settings.class_names, dev_settings.class_names);
}

#[test]
fn use_prod_settings_for_debug_build_when_no_dev_settings_where_given() {
    let mut prod_settings = Settings::default();
    let class_name_generation = ClassNameGeneration {
        template: String::from("def"),
        ..Default::default()
    };
    prod_settings.class_names = class_name_generation;

    let selected_settings = Settings::choose_settings(None, Some(prod_settings.clone()), true);

    assert_eq!(selected_settings.class_names, prod_settings.class_names);
}

#[test]
fn use_prod_settings_for_release_build() {
    let mut dev_settings = Settings::default();
    let class_name_generation = ClassNameGeneration {
        template: String::from("abc"),
        ..Default::default()
    };
    dev_settings.class_names = class_name_generation;

    let mut prod_settings = Settings::default();
    let class_name_generation = ClassNameGeneration {
        template: String::from("def"),
        ..Default::default()
    };
    prod_settings.class_names = class_name_generation;

    let selected_settings =
        Settings::choose_settings(Some(dev_settings), Some(prod_settings.clone()), false);

    assert_eq!(selected_settings.class_names, prod_settings.class_names);
}

#[test]
fn do_not_use_dev_settings_for_release_build() {
    let mut dev_settings = Settings::default();
    let class_name_generation = ClassNameGeneration {
        template: String::from("abc"),
        ..Default::default()
    };
    dev_settings.class_names = class_name_generation;

    let selected_settings = Settings::choose_settings(Some(dev_settings.clone()), None, false);

    assert_ne!(selected_settings.class_names, dev_settings.class_names);
}

#[test]
fn fall_back_to_defaults_when_no_profile_applies() {
    let selected = Settings::choose_settings(None, None, true);
    assert_eq!(selected.class_names, Settings::default().class_names);
    assert!(!selected.debug);
    assert!(selected.minify);
    assert!(selected.load_paths.is_empty());
    assert_eq!(selected.class_names.template, "class-<id>");
}

#[test]
fn default_minify_is_on() {
    assert!(turf_core::settings::default_minify());
}

#[test]
fn settings_store_caches_each_slot() {
    let mut store = SettingsStore::new();
    let mut dev = Settings::default();
    dev.class_names.template = String::from("abc");
    let manifest = ManifestProfiles { dev: Some(dev.clone()), prod: None };
    let first = Settings::get(&mut store, Some(Ok(manifest)), true).unwrap();
    assert_eq!(first.class_names.template, "abc");

    // Both slots are resolved now: no manifest read is needed, and the
    // second resolution returns the same value as the first.
    let second = Settings::get(&mut store, None, true).unwrap();
    assert_eq!(second.class_names, first.class_names);
}

#[test]
fn profile_resolution_ignores_later_loads() {
    let mut store = SettingsStore::new();
    let mut dev = Settings::default();
    dev.class_names.template = String::from("abc");
    let first = Settings::dev_profile_settings(&mut store, Some(Ok(Some(dev))))
        .unwrap()
        .unwrap();

    let mut other = Settings::default();
    other.class_names.template = String::from("xyz");
    let second = Settings::dev_profile_settings(&mut store, Some(Ok(Some(other))))
        .unwrap()
        .unwrap();

    assert_eq!(first.class_names, second.class_names);
    assert_eq!(second.class_names.template, "abc");
}

#[test]
fn manifest_failure_is_reported_once_needed() {
    let mut store = SettingsStore::new();
    let err = ManifestError {
        details: String::from("missing manifest"),
    };
    let e = Settings::get(&mut store, Some(Err(err)), false).unwrap_err();
    assert_eq!(e.causes(), vec![String::from("missing manifest")]);
    assert_eq!(
        e.message(),
        "could not obtain the stylesheet settings from the build manifest"
    );
}

#[test]
fn canonicalized_load_paths_resolve_existing_paths() {
    let mut settings = Settings::default();
    settings.load_paths = vec![String::from("/")];
    let resolved = settings.canonicalized_load_paths().unwrap();
    assert_eq!(resolved, vec![String::from("/")]);
}

#[test]
fn canonicalized_load_paths_fail_loudly_on_missing_paths() {
    let mut settings = Settings::default();
    settings.load_paths = vec![String::from("/"), String::from("/surely/not/a/real/path/xyz")];
    let e = settings.canonicalized_load_paths().unwrap_err();
    assert_eq!(e.path, "/surely/not/a/real/path/xyz");
    assert!(!e.details.is_empty());
}

#[test]
fn prod_slot_caches_like_the_dev_slot() {
    let mut store = SettingsStore::new();
    let mut prod = Settings::default();
    prod.class_names.template = String::from("def");
    let first = Settings::prod_profile_settings(&mut store, Some(Ok(Some(prod))))
        .unwrap()
        .unwrap();
    let second = Settings::prod_profile_settings(&mut store, Some(Ok(None)))
        .unwrap()
        .unwrap();
    assert_eq!(first.class_names, second.class_names);
    assert_eq!(second.class_names.template, "def");
}

#[test]
fn duplicate_keeps_every_field() {
    let mut settings = Settings::default();
    settings.debug = true;
    settings.minify = false;
    settings.load_paths = vec![String::from("a"), String::from("b")];
    settings.class_names.excludes = vec![String::from("x")];
    let copy = settings.duplicate();
    assert_eq!(copy.debug, settings.debug);
    assert_eq!(copy.minify, settings.minify);
    assert_eq!(copy.load_paths, settings.load_paths);
    assert_eq!(copy.class_names, settings.class_names);
}
