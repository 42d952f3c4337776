//! Settings and their profile-based resolution.
//!
//! Two configuration profiles (development and production) are read from the
//! build manifest at most once per process and cached in a [`SettingsStore`].
//! Which profile is in effect is a pure function of the two cached slots and
//! the build mode; see [`Settings::choose_settings`].

use vstd::prelude::*;

use crate::browser::BrowserVersions;
use crate::paths::PathResolutionError;
use crate::paths::canonicalize_path;

verus! {

/// Optional file-output configuration recognized in the manifest.
#[derive(Debug, Clone)]
pub struct FileOutput {
    pub global_css_file_path: Option<String>,
    pub separate_css_files_path: Option<String>,
}

/// Spec-level image of a [`FileOutput`].
pub ghost struct FileOutputV {
    pub global_css_file_path: Option<Seq<char>>,
    pub separate_css_files_path: Option<Seq<char>>,
}

/// Spec-level image of an optional string.
pub open spec fn opt_string_view(o: Option<String>) -> Option<Seq<char>> {
    match o {
        Some(s) => Some(s@),
        None => None,
    }
}

impl View for FileOutput {
    type V = FileOutputV;

    open spec fn view(&self) -> FileOutputV {
        FileOutputV {
            global_css_file_path: opt_string_view(self.global_css_file_path),
            separate_css_files_path: opt_string_view(self.separate_css_files_path),
        }
    }
}

impl Default for FileOutput {
    /// Both output paths are absent by default.
    fn default() -> (r: Self)
        ensures
            r@.global_css_file_path is None,
            r@.separate_css_files_path is None,
    {
        FileOutput { global_css_file_path: None, separate_css_files_path: None }
    }
}

/// How replacement class names are generated: a template holding the
/// substitution marker `<id>`, and class names excluded from renaming.
#[derive(Debug, Clone, PartialEq)]
pub struct ClassNameGeneration {
    pub template: String,
    pub excludes: Vec<String>,
}

/// Spec-level image of a [`ClassNameGeneration`].
pub ghost struct ClassNameGenerationV {
    pub template: Seq<char>,
    pub excludes: Seq<Seq<char>>,
}

impl View for ClassNameGeneration {
    type V = ClassNameGenerationV;

    open spec fn view(&self) -> ClassNameGenerationV {
        ClassNameGenerationV { template: self.template@, excludes: self.excludes.deep_view() }
    }
}

/// The default template: `class-<id>`, with nothing excluded from renaming.
pub open spec fn spec_default_class_names() -> ClassNameGenerationV {
    ClassNameGenerationV { template: "class-<id>"@, excludes: Seq::empty() }
}

impl Default for ClassNameGeneration {
    fn default() -> (r: Self)
        ensures
            r@ == spec_default_class_names(),
    {
        let excludes: Vec<String> = Vec::new();
        proof {
            assert(excludes.deep_view() =~= Seq::<Seq<char>>::empty());
        }
        ClassNameGeneration { template: "class-<id>".to_owned(), excludes }
    }
}

impl ClassNameGeneration {
    /// Returns a value equal, field by field, to this one.
    pub fn duplicate(&self) -> (r: Self)
        ensures
            r@ == self@,
    {
        let template = self.template.clone();
        let mut excludes: Vec<String> = Vec::new();
        for i in 0..self.excludes.len()
            invariant
                excludes@.len() == i,
                forall|j: int| 0 <= j < i ==> excludes@[j] == self.excludes@[j],
        {
            excludes.push(self.excludes[i].clone());
        }
        proof {
            assert(excludes@ =~= self.excludes@);
        }
        ClassNameGeneration { template, excludes }
    }
}

/// The configuration in effect for one compilation.
#[derive(Debug, Clone)]
pub struct Settings {
    pub debug: bool,
    pub minify: bool,
    pub load_paths: Vec<String>,
    pub browser_targets: Option<BrowserVersions>,
    pub class_names: ClassNameGeneration,
    pub file_output: Option<FileOutput>,
}

/// Spec-level image of a [`Settings`].
pub ghost struct SettingsV {
    pub debug: bool,
    pub minify: bool,
    pub load_paths: Seq<Seq<char>>,
    pub browser_targets: Option<BrowserVersions>,
    pub class_names: ClassNameGenerationV,
    pub file_output: Option<FileOutputV>,
}

/// Spec-level image of an optional [`FileOutput`].
pub open spec fn opt_file_output_view(o: Option<FileOutput>) -> Option<FileOutputV> {
    match o {
        Some(f) => Some(f@),
        None => None,
    }
}

impl View for Settings {
    type V = SettingsV;

    open spec fn view(&self) -> SettingsV {
        SettingsV {
            debug: self.debug,
            minify: self.minify,
            load_paths: self.load_paths.deep_view(),
            browser_targets: self.browser_targets,
            class_names: self.class_names@,
            file_output: opt_file_output_view(self.file_output),
        }
    }
}

/// The minify flag used when the manifest does not set one.
pub fn default_minify() -> (r: bool)
    ensures
        r == spec_default_settings().minify,
{
    true
}

/// The settings used when no profile is configured: debug off, minify on,
/// no load paths, no browser targets, default class-name generation, and
/// no file output.
pub open spec fn spec_default_settings() -> SettingsV {
    SettingsV {
        debug: false,
        minify: true,
        load_paths: Seq::empty(),
        browser_targets: None,
        class_names: spec_default_class_names(),
        file_output: None,
    }
}

impl Default for Settings {
    fn default() -> (r: Self)
        ensures
            r@ == spec_default_settings(),
    {
        let load_paths: Vec<String> = Vec::new();
        proof {
            assert(load_paths.deep_view() =~= Seq::<Seq<char>>::empty());
        }
        Settings {
            debug: false,
            minify: true,
            load_paths,
            browser_targets: None,
            class_names: ClassNameGeneration::default(),
            file_output: None,
        }
    }
}

impl FileOutput {
    /// Returns a value equal, field by field, to this one.
    pub fn duplicate(&self) -> (r: Self)
        ensures
            r@ == self@,
    {
        FileOutput {
            global_css_file_path: match &self.global_css_file_path {
                Some(p) => Some(p.clone()),
                None => None,
            },
            separate_css_files_path: match &self.separate_css_files_path {
                Some(p) => Some(p.clone()),
                None => None,
            },
        }
    }
}

impl Settings {
    /// Returns a value whose spec-level image equals this one's.
    pub fn duplicate(&self) -> (r: Self)
        ensures
            r@ == self@,
    {
        let mut load_paths: Vec<String> = Vec::new();
        for i in 0..self.load_paths.len()
            invariant
                load_paths@.len() == i,
                forall|j: int| 0 <= j < i ==> load_paths@[j] == self.load_paths@[j],
        {
            load_paths.push(self.load_paths[i].clone());
        }
        proof {
            assert(load_paths@ =~= self.load_paths@);
        }
        Settings {
            debug: self.debug,
            minify: self.minify,
            load_paths,
            browser_targets: self.browser_targets,
            class_names: self.class_names.duplicate(),
            file_output: match &self.file_output {
                Some(f) => Some(f.duplicate()),
                None => None,
            },
        }
    }

    /// Resolves every configured load path to a canonical filesystem path,
    /// in order, stopping at the first path that cannot be resolved.
    pub fn canonicalized_load_paths(&self) -> (r: Result<Vec<String>, PathResolutionError>)
        ensures
            r matches Ok(v) ==> v@.len() == self.load_paths@.len(),
            r matches Err(e) ==> exists|i: int|
                0 <= i < self.load_paths@.len() && e.path == self.load_paths@[i],
    {
        let mut out: Vec<String> = Vec::new();
        for i in 0..self.load_paths.len()
            invariant
                out@.len() == i,
        {
            match canonicalize_path(&self.load_paths[i]) {
                Ok(p) => out.push(p),
                Err(details) => {
                    let e = PathResolutionError { path: self.load_paths[i].clone(), details };
                    proof {
                        assert(e.path == self.load_paths@[i as int]);
                    }
                    return Err(e);
                }
            }
        }
        Ok(out)
    }
}

/// Spec-level image of an optional [`Settings`].
pub open spec fn opt_settings_view(o: Option<Settings>) -> Option<SettingsV> {
    match o {
        Some(s) => Some(s@),
        None => None,
    }
}

/// Returns a value whose spec-level image equals the given one's.
pub fn duplicate_opt_settings(o: &Option<Settings>) -> (r: Option<Settings>)
    ensures
        opt_settings_view(r) == opt_settings_view(*o),
{
    match o {
        Some(s) => Some(s.duplicate()),
        None => None,
    }
}

/// The build manifest could not be read or parsed.
#[derive(Debug, Clone)]
pub struct ManifestError {
    pub details: String,
}

/// Failure to obtain settings; wraps the manifest fault that caused it.
#[derive(Debug, Clone)]
pub struct SettingsError(pub ManifestError);

impl SettingsError {
    /// The top-level description of this error.
    pub fn message(&self) -> (r: String)
        ensures
            r@ == "could not obtain the stylesheet settings from the build manifest"@,
    {
        "could not obtain the stylesheet settings from the build manifest".to_owned()
    }

    /// The chain of underlying causes, outermost first.
    pub fn causes(&self) -> (r: Vec<String>)
        ensures
            r@.len() == 1,
            r@[0]@ == self.0.details@,
    {
        let mut v: Vec<String> = Vec::new();
        v.push(self.0.details.clone());
        v
    }
}

/// What the manifest loader supplies: one optional profile per slot.
#[derive(Debug)]
pub struct ManifestProfiles {
    pub dev: Option<Settings>,
    pub prod: Option<Settings>,
}

/// One cache slot of the [`SettingsStore`]: either never resolved, or
/// resolved to the profile the manifest supplied (possibly none).
#[derive(Debug)]
pub enum ProfileSlot {
    Unresolved,
    Resolved(Option<Settings>),
}

/// The process-wide cache of the two configuration profiles. Each slot
/// moves from `Unresolved` to `Resolved` at most once and never changes
/// again.
#[derive(Debug)]
pub struct SettingsStore {
    pub dev: ProfileSlot,
    pub prod: ProfileSlot,
}

/// The slot state after one resolution step with the given loaded profile.
pub open spec fn spec_resolve_slot(slot: ProfileSlot, loaded: Option<Settings>) -> ProfileSlot {
    match slot {
        ProfileSlot::Resolved(_) => slot,
        ProfileSlot::Unresolved => ProfileSlot::Resolved(loaded),
    }
}

/// The profile one resolution step returns: the cached value if the slot is
/// already resolved, the loaded value otherwise.
pub open spec fn spec_slot_result(slot: ProfileSlot, loaded: Option<Settings>) -> Option<Settings> {
    match slot {
        ProfileSlot::Resolved(cached) => cached,
        ProfileSlot::Unresolved => loaded,
    }
}

/// Resolving a slot is idempotent: once a slot has been resolved, a second
/// resolution returns the value of the first, whatever the loader would
/// supply the second time, and leaves the slot unchanged. The loader
/// therefore needs to be consulted at most once per slot.
pub proof fn lemma_slot_resolution_idempotent(
    slot: ProfileSlot,
    first: Option<Settings>,
    second: Option<Settings>,
)
    ensures
        spec_slot_result(spec_resolve_slot(slot, first), second) == spec_slot_result(slot, first),
        spec_resolve_slot(spec_resolve_slot(slot, first), second) == spec_resolve_slot(slot, first),
{
}

impl SettingsStore {
    /// A store with both slots unresolved, as at process start.
    pub fn new() -> (s: Self)
        ensures
            s.dev is Unresolved,
            s.prod is Unresolved,
    {
        SettingsStore { dev: ProfileSlot::Unresolved, prod: ProfileSlot::Unresolved }
    }

    /// Whether the development slot still needs the manifest loader.
    pub fn dev_is_resolved(&self) -> (b: bool)
        ensures
            b == (self.dev is Resolved),
    {
        match &self.dev {
            ProfileSlot::Resolved(_) => true,
            ProfileSlot::Unresolved => false,
        }
    }

    /// Whether the production slot still needs the manifest loader.
    pub fn prod_is_resolved(&self) -> (b: bool)
        ensures
            b == (self.prod is Resolved),
    {
        match &self.prod {
            ProfileSlot::Resolved(_) => true,
            ProfileSlot::Unresolved => false,
        }
    }
}

/// Which settings are in effect, as a pure function of the two profiles and
/// the build mode: a development build uses the development profile, falling
/// back to the production profile; a production build uses the production
/// profile only; with no applicable profile, the defaults apply.
pub open spec fn spec_choose_settings(
    dev: Option<SettingsV>,
    prod: Option<SettingsV>,
    is_debug_build: bool,
) -> SettingsV {
    if is_debug_build && dev is Some {
        dev.unwrap()
    } else if prod is Some {
        prod.unwrap()
    } else {
        spec_default_settings()
    }
}

impl Settings {
    /// Picks the effective settings from the two optional profiles and the
    /// build mode; see [`spec_choose_settings`] for the selection rule.
    pub fn choose_settings(
        dev: Option<Settings>,
        prod: Option<Settings>,
        is_debug_build: bool,
    ) -> (r: Settings)
        ensures
            r@ == spec_choose_settings(
                opt_settings_view(dev),
                opt_settings_view(prod),
                is_debug_build,
            ),
    {
        if is_debug_build {
            match dev {
                Some(cfg) => cfg,
                None => match prod {
                    Some(cfg) => cfg,
                    None => Settings::default(),
                },
            }
        } else {
            match prod {
                Some(cfg) => cfg,
                None => Settings::default(),
            }
        }
    }

    /// Resolves the development slot: returns the cached profile if the slot
    /// is resolved; otherwise caches and returns what the manifest loader
    /// supplied, or reports the loader's failure without touching the slot.
    pub fn dev_profile_settings(
        store: &mut SettingsStore,
        loaded: Option<Result<Option<Settings>, ManifestError>>,
    ) -> (r: Result<Option<Settings>, SettingsError>)
        requires
            old(store).dev is Unresolved ==> loaded is Some,
        ensures
            final(store).prod == old(store).prod,
            old(store).dev matches ProfileSlot::Resolved(cached) ==> final(store).dev == old(store).dev && (r matches Ok(v) && opt_settings_view(v) == opt_settings_view(cached)),
            old(store).dev is Unresolved ==> match loaded {
                Some(Ok(m)) => final(store).dev == spec_resolve_slot(old(store).dev, m) && (
                r matches Ok(v) && opt_settings_view(v) == opt_settings_view(
                    spec_slot_result(old(store).dev, m),
                )),
                Some(Err(e)) => final(store).dev == old(store).dev && r == Err::<
                    Option<Settings>,
                    SettingsError,
                >(SettingsError(e)),
                None => true,
            },
    {
        if store.dev_is_resolved() {
            match &store.dev {
                ProfileSlot::Resolved(cached) => Ok(duplicate_opt_settings(cached)),
                ProfileSlot::Unresolved => unreached(),
            }
        } else {
            match loaded {
                Some(Ok(m)) => {
                    let r = duplicate_opt_settings(&m);
                    store.dev = ProfileSlot::Resolved(m);
                    Ok(r)
                }
                Some(Err(e)) => Err(SettingsError(e)),
                None => unreached(),
            }
        }
    }

    /// Resolves the production slot; the counterpart of
    /// [`Settings::dev_profile_settings`].
    pub fn prod_profile_settings(
        store: &mut SettingsStore,
        loaded: Option<Result<Option<Settings>, ManifestError>>,
    ) -> (r: Result<Option<Settings>, SettingsError>)
        requires
            old(store).prod is Unresolved ==> loaded is Some,
        ensures
            final(store).dev == old(store).dev,
            old(store).prod matches ProfileSlot::Resolved(cached) ==> final(store).prod == old(store).prod && (r matches Ok(v) && opt_settings_view(v) == opt_settings_view(cached)),
            old(store).prod is Unresolved ==> match loaded {
                Some(Ok(m)) => final(store).prod == spec_resolve_slot(old(store).prod, m) && (
                r matches Ok(v) && opt_settings_view(v) == opt_settings_view(
                    spec_slot_result(old(store).prod, m),
                )),
                Some(Err(e)) => final(store).prod == old(store).prod && r == Err::<
                    Option<Settings>,
                    SettingsError,
                >(SettingsError(e)),
                None => true,
            },
    {
        if store.prod_is_resolved() {
            match &store.prod {
                ProfileSlot::Resolved(cached) => Ok(duplicate_opt_settings(cached)),
                ProfileSlot::Unresolved => unreached(),
            }
        } else {
            match loaded {
                Some(Ok(m)) => {
                    let r = duplicate_opt_settings(&m);
                    store.prod = ProfileSlot::Resolved(m);
                    Ok(r)
                }
                Some(Err(e)) => Err(SettingsError(e)),
                None => unreached(),
            }
        }
    }

    /// The profile a resolved slot caches; meaningful only for resolved slots.
    pub open spec fn spec_slot_profile(slot: ProfileSlot) -> Option<SettingsV> {
        match slot {
            ProfileSlot::Resolved(cached) => opt_settings_view(cached),
            ProfileSlot::Unresolved => None,
        }
    }

    /// The effective settings for this build. Each still-unresolved slot is
    /// populated from the supplied manifest read; resolved slots keep their
    /// cached profile and ignore the manifest. A manifest failure is reported
    /// only when a slot actually needed it.
    pub fn get(
        store: &mut SettingsStore,
        manifest: Option<Result<ManifestProfiles, ManifestError>>,
        is_debug_build: bool,
    ) -> (r: Result<Settings, SettingsError>)
        requires
            (old(store).dev is Unresolved || old(store).prod is Unresolved) ==> manifest is Some,
        ensures
            (r is Err) <==> ((old(store).dev is Unresolved || old(store).prod is Unresolved)
                && manifest matches Some(Err(_))),
            r is Err ==> final(store).dev == old(store).dev && final(store).prod == old(store).prod,
            r matches Err(se) ==> (manifest matches Some(Err(me)) && se == SettingsError(me)),
            r is Ok ==> final(store).dev is Resolved && final(store).prod is Resolved,
            old(store).dev matches ProfileSlot::Resolved(c) ==> final(store).dev == old(store).dev,
            old(store).prod matches ProfileSlot::Resolved(c) ==> final(store).prod == old(store).prod,
            r is Ok && old(store).dev is Unresolved ==> (manifest matches Some(Ok(m)) && final(store).dev == ProfileSlot::Resolved(m.dev)),
            r is Ok && old(store).prod is Unresolved ==> (manifest matches Some(Ok(m)) && final(store).prod == ProfileSlot::Resolved(m.prod)),
            r matches Ok(s) ==> s@ == spec_choose_settings(
                Self::spec_slot_profile(final(store).dev),
                Self::spec_slot_profile(final(store).prod),
                is_debug_build,
            ),
    {
        let needs_manifest = !store.dev_is_resolved() || !store.prod_is_resolved();
        let (dev_loaded, prod_loaded): (
            Option<Result<Option<Settings>, ManifestError>>,
            Option<Result<Option<Settings>, ManifestError>>,
        ) = if needs_manifest {
            match manifest {
                Some(Ok(m)) => {
                    let ManifestProfiles { dev, prod } = m;
                    (Some(Ok(dev)), Some(Ok(prod)))
                }
                Some(Err(e)) => {
                    return Err(SettingsError(e));
                }
                None => unreached(),
            }
        } else {
            (None, None)
        };
        let dev_settings = match Self::dev_profile_settings(store, dev_loaded) {
            Ok(v) => v,
            Err(_) => unreached(),
        };
        let prod_settings = match Self::prod_profile_settings(store, prod_loaded) {
            Ok(v) => v,
            Err(_) => unreached(),
        };
        Ok(Self::choose_settings(dev_settings, prod_settings, is_debug_build))
    }
}

} // verus!
