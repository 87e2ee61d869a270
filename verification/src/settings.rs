//! Where the service keeps its files, and the profile that it runs under.
use crate::error;
use crate::error::ApiError;
use crate::pack;
use crate::text;
use vstd::prelude::*;
use vstd::string::*;

verus! {

/// How the service is run.
#[derive(Clone, Copy, Debug, PartialEq, Eq, Structural)]
pub enum ApplicationProfile {
    Local,
    GpuProduction,
}

impl ApplicationProfile {
    /// The profile that a setting names: production by its name in any case, else
    /// the local one.
    pub open spec fn of(setting: Option<Seq<char>>) -> ApplicationProfile {
        match setting {
            Some(name) => if text::lower(name) == text::lower("GPU_PRODUCTION"@) {
                ApplicationProfile::GpuProduction
            } else {
                ApplicationProfile::Local
            },
            None => ApplicationProfile::Local,
        }
    }

    /// Reads the setting that names the profile.
    pub fn from_setting(setting: Option<&str>) -> (profile: Self)
        ensures
            profile == Self::of(text::opt_str(setting)),
    {
        match setting {
            Some(name) => if text::same_ignoring_ascii_case(name, "GPU_PRODUCTION") {
                ApplicationProfile::GpuProduction
            } else {
                ApplicationProfile::Local
            },
            None => ApplicationProfile::Local,
        }
    }
}

/// The settings of the service. Those that are kept name absolute paths, so that a
/// start from another working directory does not change what they mean.
#[derive(Debug)]
pub struct AppSettings {
    pub models_dir: String,
    pub outputs_dir: String,
    pub cache_dir: String,
    pub work_dir: String,
    pub auto_unload_minutes: u64,
    pub automatic_optimization: bool,
}

/// What [`AppSettings`] says.
#[verifier::ext_equal]
pub struct SettingsView {
    pub models_dir: Seq<char>,
    pub outputs_dir: Seq<char>,
    pub cache_dir: Seq<char>,
    pub work_dir: Seq<char>,
    pub auto_unload_minutes: u64,
    pub automatic_optimization: bool,
}

impl View for AppSettings {
    type V = SettingsView;

    open spec fn view(&self) -> SettingsView {
        SettingsView {
            models_dir: self.models_dir@,
            outputs_dir: self.outputs_dir@,
            cache_dir: self.cache_dir@,
            work_dir: self.work_dir@,
            auto_unload_minutes: self.auto_unload_minutes,
            automatic_optimization: self.automatic_optimization,
        }
    }
}

impl AppSettings {
    /// A copy of the value.
    pub fn copy(&self) -> (copy: Self)
        ensures
            copy@ == self@,
    {
        AppSettings {
            models_dir: self.models_dir.clone(),
            outputs_dir: self.outputs_dir.clone(),
            cache_dir: self.cache_dir.clone(),
            work_dir: self.work_dir.clone(),
            auto_unload_minutes: self.auto_unload_minutes,
            automatic_optimization: self.automatic_optimization,
        }
    }
}

/// The directories that the environment sets.
#[derive(Debug)]
pub struct Mounts {
    pub models_dir: Option<String>,
    pub outputs_dir: Option<String>,
    pub cache_dir: Option<String>,
    pub work_dir: Option<String>,
}

/// What [`Mounts`] says.
#[verifier::ext_equal]
pub struct MountsView {
    pub models_dir: Option<Seq<char>>,
    pub outputs_dir: Option<Seq<char>>,
    pub cache_dir: Option<Seq<char>>,
    pub work_dir: Option<Seq<char>>,
}

impl View for Mounts {
    type V = MountsView;

    open spec fn view(&self) -> MountsView {
        MountsView {
            models_dir: text::opt(self.models_dir),
            outputs_dir: text::opt(self.outputs_dir),
            cache_dir: text::opt(self.cache_dir),
            work_dir: text::opt(self.work_dir),
        }
    }
}

impl Mounts {
    /// A copy of the value.
    pub fn copy(&self) -> (copy: Self)
        ensures
            copy@ == self@,
    {
        Mounts {
            models_dir: text::copy_opt(&self.models_dir),
            outputs_dir: text::copy_opt(&self.outputs_dir),
            cache_dir: text::copy_opt(&self.cache_dir),
            work_dir: text::copy_opt(&self.work_dir),
        }
    }
}

/// The path of a name below a directory.
pub open spec fn below(base: Seq<char>, name: Seq<char>) -> Seq<char> {
    if base.len() == 0 {
        name
    } else if base.last() == '/' {
        base + name
    } else {
        base + "/"@ + name
    }
}

/// The path of a name below a directory.
pub fn path_below(base: &str, name: &str) -> (path: String)
    ensures
        path@ == below(base@, name@),
{
    let characters = text::chars_of(base);
    let length: usize = characters.len();
    if length == 0 {
        name.to_owned()
    } else if characters[length - 1] == '/' {
        text::concat(base, name)
    } else {
        text::concat3(base, "/", name)
    }
}

/// Whether a path means the same from every working directory.
pub open spec fn absolute(path: Seq<char>) -> bool {
    path.len() > 0 && path[0] == '/'
}

/// Whether a path means the same from every working directory.
pub fn is_absolute(path: &str) -> (yes: bool)
    ensures
        yes == absolute(path@),
{
    let characters = text::chars_of(path);
    characters.len() > 0 && characters[0] == '/'
}

/// A path as it is kept: one that is not absolute is taken below the working
/// directory. No path stays none.
pub open spec fn anchored_path(current: Option<Seq<char>>, path: Seq<char>) -> Seq<char> {
    match current {
        Some(directory) => if path.len() > 0 && !absolute(path) && absolute(directory) {
            below(directory, path)
        } else {
            path
        },
        None => path,
    }
}

fn anchor_path(current: Option<&str>, path: String) -> (kept: String)
    ensures
        kept@ == anchored_path(text::opt_str(current), path@),
{
    match current {
        Some(directory) => {
            if text::chars_of(path.as_str()).len() > 0 && !is_absolute(path.as_str())
                && is_absolute(directory) {
                path_below(directory, path.as_str())
            } else {
                path
            }
        },
        None => path,
    }
}

/// Settings as they are kept, with their paths below the working directory where
/// they are not absolute.
pub open spec fn anchored(settings: SettingsView, current: Option<Seq<char>>) -> SettingsView {
    SettingsView {
        models_dir: anchored_path(current, settings.models_dir),
        outputs_dir: anchored_path(current, settings.outputs_dir),
        cache_dir: anchored_path(current, settings.cache_dir),
        work_dir: anchored_path(current, settings.work_dir),
        ..settings
    }
}

/// Whether all the paths of settings are absolute.
pub open spec fn all_absolute(settings: SettingsView) -> bool {
    absolute(settings.models_dir) && absolute(settings.outputs_dir) && absolute(settings.cache_dir)
        && absolute(settings.work_dir)
}

/// What was set, or what stands in for it.
pub open spec fn or_else(given: Option<Seq<char>>, fallback: Seq<char>) -> Seq<char> {
    match given {
        Some(value) => value,
        None => fallback,
    }
}

fn choose_path(given: &Option<String>, fallback: String) -> (path: String)
    ensures
        path@ == or_else(text::opt(*given), fallback@),
{
    match given {
        Some(value) => value.clone(),
        None => fallback,
    }
}

/// The settings of a first start below a directory.
pub open spec fn first_settings(base: Seq<char>, mounts: MountsView) -> SettingsView {
    SettingsView {
        models_dir: or_else(mounts.models_dir, below(base, "models"@)),
        outputs_dir: or_else(mounts.outputs_dir, below(base, "outputs"@)),
        cache_dir: or_else(mounts.cache_dir, below(base, "cache"@)),
        work_dir: or_else(mounts.work_dir, below(base, "work"@)),
        auto_unload_minutes: 15,
        automatic_optimization: true,
    }
}

/// Settings with the directories that the environment sets.
pub open spec fn mounted(settings: SettingsView, mounts: MountsView) -> SettingsView {
    SettingsView {
        models_dir: or_else(mounts.models_dir, settings.models_dir),
        outputs_dir: or_else(mounts.outputs_dir, settings.outputs_dir),
        cache_dir: or_else(mounts.cache_dir, settings.cache_dir),
        work_dir: or_else(mounts.work_dir, settings.work_dir),
        ..settings
    }
}

/// What stands at the path of a directory once the service tried to create it.
#[derive(Debug)]
pub enum Found {
    /// The directory is there.
    Directory,
    /// A file is there.
    File,
    /// The directory could not be created.
    Failed(String),
}

/// The four directories of the service, in the order in which they are created.
pub open spec fn directories(settings: SettingsView) -> Seq<(Seq<char>, Seq<char>)> {
    seq![
        ("modèles"@, settings.models_dir),
        ("sorties"@, settings.outputs_dir),
        ("cache"@, settings.cache_dir),
        ("temporaire"@, settings.work_dir),
    ]
}

/// What is said of a directory without a path.
pub open spec fn empty_refusal(label: Seq<char>) -> (u16, Seq<char>) {
    (error::BAD_REQUEST, "Le dossier "@ + label + " ne peut pas être vide."@)
}

/// What is said of a directory whose path depends on a working directory that is
/// not known.
pub open spec fn relative_refusal(label: Seq<char>) -> (u16, Seq<char>) {
    (error::BAD_REQUEST, "Le dossier "@ + label + " doit être un chemin absolu."@)
}

/// What is said of what stands at the path of a directory, if anything.
pub open spec fn refusal_of(path: Seq<char>, found: Found) -> Option<(u16, Seq<char>)> {
    match found {
        Found::Directory => None,
        Found::File => Some(
            (
                error::BAD_REQUEST,
                "Le chemin "@ + path + " désigne un fichier, pas un dossier."@,
            ),
        ),
        Found::Failed(cause) => Some(
            (
                error::BAD_REQUEST,
                "Impossible de créer le dossier "@ + path + " : "@ + cause@,
            ),
        ),
    }
}

impl AppSettings {
    /// The settings of a first start below a directory, before they are anchored.
    pub fn defaults(base: &str, mounts: &Mounts) -> (settings: Self)
        ensures
            settings@ == first_settings(base@, mounts@),
    {
        AppSettings {
            models_dir: choose_path(&mounts.models_dir, path_below(base, "models")),
            outputs_dir: choose_path(&mounts.outputs_dir, path_below(base, "outputs")),
            cache_dir: choose_path(&mounts.cache_dir, path_below(base, "cache")),
            work_dir: choose_path(&mounts.work_dir, path_below(base, "work")),
            auto_unload_minutes: 15,
            automatic_optimization: true,
        }
    }

    /// Settings with the directories that the environment sets, before they are
    /// anchored.
    pub fn mount(self, mounts: &Mounts) -> (settings: Self)
        ensures
            settings@ == mounted(self@, mounts@),
    {
        AppSettings {
            models_dir: choose_path(&mounts.models_dir, self.models_dir),
            outputs_dir: choose_path(&mounts.outputs_dir, self.outputs_dir),
            cache_dir: choose_path(&mounts.cache_dir, self.cache_dir),
            work_dir: choose_path(&mounts.work_dir, self.work_dir),
            auto_unload_minutes: self.auto_unload_minutes,
            automatic_optimization: self.automatic_optimization,
        }
    }

    /// Settings as they are kept from a working directory, where it is known.
    pub fn anchor(self, current: Option<&str>) -> (settings: Self)
        ensures
            settings@ == anchored(self@, text::opt_str(current)),
    {
        AppSettings {
            models_dir: anchor_path(current, self.models_dir),
            outputs_dir: anchor_path(current, self.outputs_dir),
            cache_dir: anchor_path(current, self.cache_dir),
            work_dir: anchor_path(current, self.work_dir),
            auto_unload_minutes: self.auto_unload_minutes,
            automatic_optimization: self.automatic_optimization,
        }
    }

    fn labelled(&self, which: usize) -> (directory: (&'static str, &String))
        requires
            which < 4,
        ensures
            (directory.0@, directory.1@) == directories(self@)[which as int],
    {
        if which == 0 {
            ("modèles", &self.models_dir)
        } else if which == 1 {
            ("sorties", &self.outputs_dir)
        } else if which == 2 {
            ("cache", &self.cache_dir)
        } else {
            ("temporaire", &self.work_dir)
        }
    }

    /// The path of one of the four directories, which is to be created.
    pub fn directory(&self, which: usize) -> (result: Result<String, ApiError>)
        requires
            which < 4,
        ensures
            ({
                let (label, path) = directories(self@)[which as int];
                match result {
                    Ok(found) => absolute(path) && found@ == path,
                    Err(refusal) => !absolute(path) && error::says(refusal) == if path.len() == 0 {
                        empty_refusal(label)
                    } else {
                        relative_refusal(label)
                    },
                }
            }),
    {
        let (label, path) = self.labelled(which);
        if text::chars_of(path.as_str()).len() == 0 {
            Err(
                ApiError::bad_request(
                    text::concat3("Le dossier ", label, " ne peut pas être vide."),
                ),
            )
        } else if !is_absolute(path.as_str()) {
            Err(
                ApiError::bad_request(
                    text::concat3("Le dossier ", label, " doit être un chemin absolu."),
                ),
            )
        } else {
            Ok(path.clone())
        }
    }

    /// Judges what stands at the path of one of the four directories.
    pub fn check_directory(&self, which: usize, found: &Found) -> (result: Result<(), ApiError>)
        requires
            which < 4,
        ensures
            pack::refused(result) == refusal_of(directories(self@)[which as int].1, *found),
    {
        let (_, path) = self.labelled(which);
        match found {
            Found::Directory => Ok(()),
            Found::File => Err(
                ApiError::bad_request(
                    text::concat3(
                        "Le chemin ",
                        path.as_str(),
                        " désigne un fichier, pas un dossier.",
                    ),
                ),
            ),
            Found::Failed(cause) => Err(
                ApiError::bad_request(
                    text::concat4(
                        "Impossible de créer le dossier ",
                        path.as_str(),
                        " : ",
                        cause.as_str(),
                    ),
                ),
            ),
        }
    }

    /// Judges the directories in their order, up to the first that is refused.
    /// `found` says of each what stands at its path; one whose path is empty or not
    /// absolute is refused whatever is said of it.
    pub fn ensure_directories(&self, found: &Vec<Found>) -> (result: Result<(), ApiError>)
        requires
            found@.len() == 4,
        ensures
            pack::refused(result) == first_refusal(self@, found@, 0),
            result is Ok ==> all_absolute(self@),
    {
        let mut which: usize = 0;
        while which < 4
            invariant
                which <= 4,
                found@.len() == 4,
                first_refusal(self@, found@, 0) == first_refusal(self@, found@, which as int),
                forall|k: int| 0 <= k < which ==> absolute((#[trigger] directories(self@)[k]).1),
            decreases 4 - which,
        {
            match self.directory(which) {
                Err(refusal) => {
                    return Err(refusal);
                },
                Ok(_) => {},
            }
            match self.check_directory(which, &found[which]) {
                Err(refusal) => {
                    return Err(refusal);
                },
                Ok(_) => {},
            }
            which = which + 1;
        }
        assert(absolute(directories(self@)[0].1) && absolute(directories(self@)[1].1) && absolute(
            directories(self@)[2].1,
        ) && absolute(directories(self@)[3].1));
        Ok(())
    }
}

/// What is said of the first directory that is refused, from one of them on.
pub open spec fn first_refusal(settings: SettingsView, found: Seq<Found>, from: int) -> Option<
    (u16, Seq<char>),
>
    decreases 4 - from,
{
    if from < 0 || from >= 4 {
        None
    } else {
        let (label, path) = directories(settings)[from];
        if path.len() == 0 {
            Some(empty_refusal(label))
        } else if !absolute(path) {
            Some(relative_refusal(label))
        } else if refusal_of(path, found[from]) is Some {
            refusal_of(path, found[from])
        } else {
            first_refusal(settings, found, from + 1)
        }
    }
}

/// What the environment says of the place of the settings.
#[derive(Debug)]
pub struct Environment {
    pub state_dir: Option<String>,
    pub data_dir: Option<String>,
    pub config_path: Option<String>,
    /// The working directory, where it is known.
    pub current_dir: Option<String>,
    pub mounts: Mounts,
}

/// The directory below which the service keeps its state.
pub open spec fn base_of(environment: Environment) -> Seq<char> {
    match text::opt(environment.state_dir) {
        Some(path) => path,
        None => or_else(
            text::opt(environment.data_dir),
            below(or_else(text::opt(environment.current_dir), "."@), "data"@),
        ),
    }
}

/// The directory below which the service keeps its state.
pub fn base_directory(environment: &Environment) -> (base: String)
    ensures
        base@ == base_of(*environment),
{
    match &environment.state_dir {
        Some(path) => path.clone(),
        None => {
            let current = choose_path(&environment.current_dir, ".".to_owned());
            choose_path(&environment.data_dir, path_below(current.as_str(), "data"))
        },
    }
}

/// The file that holds the settings.
pub open spec fn settings_file(environment: Environment) -> Seq<char> {
    or_else(text::opt(environment.config_path), below(base_of(environment), "settings.json"@))
}

/// The file that holds the settings.
pub fn config_path(environment: &Environment) -> (path: String)
    ensures
        path@ == settings_file(*environment),
{
    let base = base_directory(environment);
    choose_path(&environment.config_path, path_below(base.as_str(), "settings.json"))
}

/// What the file of the settings held.
#[derive(Debug)]
pub enum Stored {
    Settings(AppSettings),
    Missing,
    Unreadable,
}

/// The settings and the file that holds them.
#[derive(Debug)]
pub struct SettingsStore {
    pub config_path: String,
    pub value: AppSettings,
}

/// The settings at the start: those of the file, or the first ones where there is
/// none, with the directories that the environment sets, as they are kept; `None`
/// where the file cannot be read.
pub open spec fn starting(environment: Environment, stored: Stored) -> Option<SettingsView> {
    let current = text::opt(environment.current_dir);
    match stored {
        Stored::Settings(settings) => Some(
            anchored(mounted(settings@, environment.mounts@), current),
        ),
        Stored::Missing => Some(
            anchored(
                mounted(
                    first_settings(base_of(environment), environment.mounts@),
                    environment.mounts@,
                ),
                current,
            ),
        ),
        Stored::Unreadable => None,
    }
}

/// The settings at the start, whose directories are to be created.
pub fn starting_settings(environment: &Environment, stored: &Stored) -> (result: Result<
    AppSettings,
    ApiError,
>)
    ensures
        match starting(*environment, *stored) {
            Some(settings) => result matches Ok(found) && found@ == settings,
            None => result matches Err(refusal) && error::says(refusal) == internal_refusal(),
        },
{
    let read = match stored {
        Stored::Settings(settings) => settings.copy(),
        Stored::Missing => {
            let base = base_directory(environment);
            AppSettings::defaults(base.as_str(), &environment.mounts)
        },
        Stored::Unreadable => {
            return Err(ApiError::internal());
        },
    };
    let current = text::borrow(&environment.current_dir);
    Ok(read.mount(&environment.mounts).anchor(current))
}

impl SettingsStore {
    /// Opens the settings at the start, where their directories are there. `found`
    /// says what stands at the directories of [`starting_settings`].
    pub fn initialize(environment: &Environment, stored: Stored, found: &Vec<Found>) -> (result: Result<
        Self,
        ApiError,
    >)
        requires
            found@.len() == 4,
        ensures
            match starting(*environment, stored) {
                None => result matches Err(refusal) && error::says(refusal) == internal_refusal(),
                Some(settings) => match first_refusal(settings, found@, 0) {
                    None => result matches Ok(store) && store.config_path@ == settings_file(
                        *environment,
                    ) && store.value@ == settings,
                    Some(said) => result matches Err(refusal) && error::says(refusal) == said,
                },
            },
            result matches Ok(store) ==> absolute(store.value@.models_dir) && absolute(
                store.value@.outputs_dir,
            ) && absolute(store.value@.cache_dir) && absolute(store.value@.work_dir),
    {
        let value = match starting_settings(environment, &stored) {
            Ok(settings) => settings,
            Err(refusal) => {
                return Err(refusal);
            },
        };
        match value.ensure_directories(found) {
            Err(refusal) => Err(refusal),
            Ok(_) => Ok(SettingsStore { config_path: config_path(environment), value }),
        }
    }

    /// A copy of the settings.
    pub fn get(&self) -> (settings: AppSettings)
        ensures
            settings@ == self.value@,
    {
        self.value.copy()
    }

    /// Replaces the settings where their directories are there, and returns them as
    /// they are kept. `current` is the working directory, where it is known, and
    /// `found` says what stands at the directories of the anchored settings.
    pub fn replace(&mut self, value: AppSettings, current: Option<&str>, found: &Vec<Found>) -> (result:
        Result<AppSettings, ApiError>)
        requires
            found@.len() == 4,
        ensures
            final(self).config_path == old(self).config_path,
            ({
                let settings = anchored(value@, text::opt_str(current));
                match first_refusal(settings, found@, 0) {
                    None => final(self).value@ == settings && (result matches Ok(kept) && kept@
                        == settings),
                    Some(said) => final(self).value == old(self).value && (result matches Err(
                        refusal,
                    ) && error::says(refusal) == said),
                }
            }),
            result matches Ok(kept) ==> absolute(kept@.models_dir) && absolute(kept@.outputs_dir)
                && absolute(kept@.cache_dir) && absolute(kept@.work_dir),
    {
        let kept = value.anchor(current);
        match kept.ensure_directories(found) {
            Err(refusal) => Err(refusal),
            Ok(_) => {
                self.value = kept.copy();
                Ok(kept)
            },
        }
    }
}

/// What is said of a failure of the service itself.
pub open spec fn internal_refusal() -> (u16, Seq<char>) {
    (error::INTERNAL_SERVER_ERROR, "Une erreur interne empêche l'opération."@)
}

/// What the environment sets holds whatever the file says, and setting it twice
/// changes nothing.
pub proof fn law_mounts_win(settings: SettingsView, mounts: MountsView)
    ensures
        mounts.models_dir is Some ==> mounted(settings, mounts).models_dir == mounts.models_dir->0,
        mounts.outputs_dir is Some ==> mounted(settings, mounts).outputs_dir
            == mounts.outputs_dir->0,
        mounts.cache_dir is Some ==> mounted(settings, mounts).cache_dir == mounts.cache_dir->0,
        mounts.work_dir is Some ==> mounted(settings, mounts).work_dir == mounts.work_dir->0,
        mounted(mounted(settings, mounts), mounts) == mounted(settings, mounts),
{
}

/// Settings are refused exactly where one of the four directories is: its path
/// is empty or not absolute, a file stands there, or it cannot be created.
pub proof fn law_all_directories_are_judged(settings: SettingsView, found: Seq<Found>)
    requires
        found.len() == 4,
    ensures
        first_refusal(settings, found, 0) is None <==> forall|k: int|
            0 <= k < 4 ==> absolute((#[trigger] directories(settings)[k]).1) && found[k]
                == Found::Directory,
{
    reveal_with_fuel(first_refusal, 5);
    let all = directories(settings);
    assert(absolute(all[0].1) || !absolute(all[0].1));
    assert(absolute(all[1].1) || !absolute(all[1].1));
    assert(absolute(all[2].1) || !absolute(all[2].1));
    assert(absolute(all[3].1) || !absolute(all[3].1));
}

/// From a known working directory every path is kept as an absolute one, and
/// settings that are kept mean the same from any other: anchoring them again
/// changes nothing.
pub proof fn law_kept_paths_keep_their_meaning(
    settings: SettingsView,
    current: Seq<char>,
    later: Option<Seq<char>>,
)
    requires
        absolute(current),
    ensures
        ({
            let kept = anchored(settings, Some(current));
            &&& settings.models_dir.len() > 0 ==> absolute(kept.models_dir)
            &&& settings.outputs_dir.len() > 0 ==> absolute(kept.outputs_dir)
            &&& settings.cache_dir.len() > 0 ==> absolute(kept.cache_dir)
            &&& settings.work_dir.len() > 0 ==> absolute(kept.work_dir)
            &&& anchored(kept, later) == kept
        }),
{
}

/// Whether the environment sets no directory.
pub open spec fn unset(mounts: MountsView) -> bool {
    mounts.models_dir is None && mounts.outputs_dir is None && mounts.cache_dir is None
        && mounts.work_dir is None
}

/// A start and a change judge the same settings alike, where the environment sets
/// no directory: both keep them anchored at the working directory, or refuse them
/// for the same directory.
pub proof fn law_starts_and_changes_judge_alike(
    environment: Environment,
    given: AppSettings,
    found: Seq<Found>,
)
    requires
        unset(environment.mounts@),
    ensures
        ({
            let changed = anchored(given@, text::opt(environment.current_dir));
            &&& starting(environment, Stored::Settings(given)) == Some(changed)
            &&& first_refusal(starting(environment, Stored::Settings(given))->0, found, 0)
                == first_refusal(changed, found, 0)
        }),
{
}

/// A start with the settings that were kept, from any working directory, gives
/// those settings, where the environment sets no directory.
pub proof fn law_restarts_keep_the_settings(environment: Environment, kept: AppSettings)
    requires
        all_absolute(kept@),
        unset(environment.mounts@),
    ensures
        starting(environment, Stored::Settings(kept)) == Some(kept@),
{
}

/// Without settings of their own the directories stand below the base, each under
/// its name, unless they are mounted elsewhere; models are unloaded after a quarter
/// of an hour.
pub proof fn law_first_settings_stand_below_the_base(base: Seq<char>, mounts: MountsView)
    requires
        base.len() > 0,
        base.last() != '/',
    ensures
        ({
            let first = first_settings(base, mounts);
            &&& mounts.models_dir is None ==> first.models_dir == base + "/"@ + "models"@
            &&& mounts.outputs_dir is None ==> first.outputs_dir == base + "/"@ + "outputs"@
            &&& mounts.cache_dir is None ==> first.cache_dir == base + "/"@ + "cache"@
            &&& mounts.work_dir is None ==> first.work_dir == base + "/"@ + "work"@
            &&& mounts.models_dir matches Some(path) ==> first.models_dir == path
            &&& mounts.outputs_dir matches Some(path) ==> first.outputs_dir == path
            &&& mounts.cache_dir matches Some(path) ==> first.cache_dir == path
            &&& mounts.work_dir matches Some(path) ==> first.work_dir == path
            &&& first.auto_unload_minutes == 15 && first.automatic_optimization
        }),
{
}

/// A directory that is not mounted, and everything that is no directory, stays as
/// it was set.
pub proof fn law_what_is_not_mounted_stays(
    settings: SettingsView,
    mounts: MountsView,
    current: Option<Seq<char>>,
)
    ensures
        mounts.models_dir is None ==> mounted(settings, mounts).models_dir == settings.models_dir,
        mounts.outputs_dir is None ==> mounted(settings, mounts).outputs_dir
            == settings.outputs_dir,
        mounts.cache_dir is None ==> mounted(settings, mounts).cache_dir == settings.cache_dir,
        mounts.work_dir is None ==> mounted(settings, mounts).work_dir == settings.work_dir,
        mounted(settings, mounts).auto_unload_minutes == settings.auto_unload_minutes,
        mounted(settings, mounts).automatic_optimization == settings.automatic_optimization,
        anchored(settings, current).auto_unload_minutes == settings.auto_unload_minutes,
        anchored(settings, current).automatic_optimization == settings.automatic_optimization,
        absolute(settings.models_dir) ==> anchored(settings, current).models_dir
            == settings.models_dir,
        current matches Some(directory) ==> absolute(directory) && directory.last() != '/'
            && settings.models_dir.len() > 0 && !absolute(settings.models_dir) ==> anchored(
            settings,
            current,
        ).models_dir == directory + "/"@ + settings.models_dir,
        current matches Some(directory) ==> absolute(directory) && directory.last() != '/'
            && settings.outputs_dir.len() > 0 && !absolute(settings.outputs_dir) ==> anchored(
            settings,
            current,
        ).outputs_dir == directory + "/"@ + settings.outputs_dir,
        current matches Some(directory) ==> absolute(directory) && directory.last() != '/'
            && settings.cache_dir.len() > 0 && !absolute(settings.cache_dir) ==> anchored(
            settings,
            current,
        ).cache_dir == directory + "/"@ + settings.cache_dir,
        current matches Some(directory) ==> absolute(directory) && directory.last() != '/'
            && settings.work_dir.len() > 0 && !absolute(settings.work_dir) ==> anchored(
            settings,
            current,
        ).work_dir == directory + "/"@ + settings.work_dir,
{
}

/// The service keeps its state where it is told to, else among its data, else below
/// the working directory; its settings stand there unless another file is named.
pub proof fn law_the_state_stands_where_it_is_told(environment: Environment)
    ensures
        environment.state_dir matches Some(path) ==> base_of(environment) == path@,
        environment.state_dir is None ==> (environment.data_dir matches Some(path) ==> base_of(
            environment,
        ) == path@),
        environment.config_path matches Some(path) ==> settings_file(environment) == path@,
        environment.config_path is None && base_of(environment).len() > 0 && base_of(
            environment,
        ).last() != '/' ==> settings_file(environment) == base_of(environment) + "/"@
            + "settings.json"@,
        starting(environment, Stored::Unreadable) is None,
{
}

/// The profile is that of production exactly where the setting names it, whatever
/// its case.
pub proof fn law_production_is_named(setting: Option<Seq<char>>)
    ensures
        setting is None ==> ApplicationProfile::of(setting) == ApplicationProfile::Local,
        setting matches Some(name) ==> (ApplicationProfile::of(setting)
            == ApplicationProfile::GpuProduction <==> text::lower(name) == "gpu_production"@),
{
    reveal_strlit("GPU_PRODUCTION");
    reveal_strlit("gpu_production");
    assert(text::lower("GPU_PRODUCTION"@) =~= "gpu_production"@);
}

/// The first directory that is wrong is named, and why: empty, not absolute, a
/// file, or not to be created.
pub proof fn law_wrong_directories_are_named(settings: SettingsView, found: Seq<Found>)
    requires
        found.len() == 4,
    ensures
        settings.models_dir.len() == 0 ==> first_refusal(settings, found, 0) == Some(
            (400u16, "Le dossier "@ + "modèles"@ + " ne peut pas être vide."@),
        ),
        absolute(settings.models_dir) && found[0] == Found::File ==> first_refusal(
            settings,
            found,
            0,
        ) == Some(
            (
                400u16,
                "Le chemin "@ + settings.models_dir + " désigne un fichier, pas un dossier."@,
            ),
        ),
        absolute(settings.models_dir) ==> (found[0] matches Found::Failed(cause) ==> first_refusal(
            settings,
            found,
            0,
        ) == Some(
            (
                400u16,
                "Impossible de créer le dossier "@ + settings.models_dir + " : "@ + cause@,
            ),
        )),
        directories(settings)[0].1 == settings.models_dir,
        directories(settings)[1].1 == settings.outputs_dir,
        directories(settings)[2].1 == settings.cache_dir,
        directories(settings)[3].1 == settings.work_dir,
        directories(settings).len() == 4,
{
    assert(directories(settings)[0] == ("modèles"@, settings.models_dir));
}

} // verus!
