//! The picker's view of the browser: the list of its profiles, and the
//! preferences that decide which browser and which profile open a link.
//!
//! Nothing here touches a file or the registry. The caller reads and writes
//! the files, asks the system for its default browser, and hands in what it
//! found; each operation says what is to be stored afterwards.

use vstd::prelude::*;

use crate::document::is_text_of;
use crate::document::JsonDocument;
use crate::error::FileOutcome;
use crate::error::ValetError;
use crate::json::parsed_document;
use crate::json::JsonModel;
use crate::paths::local_statefile_path;
use crate::paths::local_statefile_path_direct;
use crate::paths::statefile_path;
use crate::paths::statefile_path_direct;
use crate::paths::LocalPath;
use crate::prefs::PrefsModel;
use crate::profiles::distinct_directories;
use crate::profiles::entry_models;
use crate::profiles::load_profiles;
use crate::profiles::loaded_profiles;
use crate::profiles::EntryModel;
use crate::registry_utils::Browser;

pub use crate::paths::app_data_dir;
pub use crate::picture::ChromeProfilePicture;
pub use crate::prefs::ProgramPrefs;
pub use crate::profiles::ChromeProfileEntry;

verus! {

/// The profiles of the browser and the preferences of the picker.
#[derive(Debug)]
pub struct ChromeInterface {
    /// The profiles that were last loaded.
    pub profile_entries: Vec<ChromeProfileEntry>,
    /// The file in which the browser keeps the list of its profiles.
    pub statefile_path: LocalPath,
    /// The preferences.
    pub prefs: ProgramPrefs,
}

/// A `ChromeInterface` as a mathematical value.
pub struct InterfaceModel {
    pub profile_entries: Seq<EntryModel>,
    pub statefile_path: Seq<Seq<char>>,
    pub prefs: PrefsModel,
}

impl View for ChromeInterface {
    type V = InterfaceModel;

    open spec fn view(&self) -> InterfaceModel {
        InterfaceModel {
            profile_entries: entry_models(self.profile_entries@),
            statefile_path: self.statefile_path@,
            prefs: self.prefs@,
        }
    }
}

/// The browser to open links with, and whether finding it changed the
/// preferences, which are then to be stored.
#[derive(Clone, Copy, Debug)]
pub struct BrowserChoice {
    pub browser: Browser,
    pub prefs_changed: bool,
}

impl PrefsModel {
    /// The browser that the preferences name; Chrome where they name none
    /// that can be launched.
    pub open spec fn browser(self) -> Browser {
        match Browser::parse(self.default_browser) {
            Some(browser) => if browser.is_supported() {
                browser
            } else {
                Browser::Chrome
            },
            None => Browser::Chrome,
        }
    }

    /// Whether a detection replaces the browser in the preferences: it
    /// found a browser that can be launched, and the preferences do not
    /// name it yet.
    pub open spec fn superseded_by(self, detected: Option<Browser>) -> bool {
        detected matches Some(browser) && browser.is_supported() && self.default_browser
            != browser.identifier()
    }

    /// Whether a detection fills in a browser that the preferences leave
    /// open: it found a browser that can be launched, and the preferences
    /// name the unknown browser.
    pub open spec fn completed_by(self, detected: Option<Browser>) -> bool {
        detected matches Some(browser) && browser.is_supported() && Browser::parse(
            self.default_browser,
        ) == Some(Browser::Unknown)
    }

    /// The preferences with another default browser.
    pub open spec fn with_browser(self, browser: Browser) -> PrefsModel {
        PrefsModel { default_browser: browser.identifier(), ..self }
    }
}

impl InterfaceModel {
    /// The state before anything was read: no profiles, the preferences of
    /// a fresh installation, and Chrome's list of profiles to read.
    pub open spec fn initial() -> InterfaceModel {
        InterfaceModel {
            profile_entries: Seq::empty(),
            statefile_path: statefile_path(Browser::Chrome.launch_definition().app_data_dir),
            prefs: PrefsModel::initial(),
        }
    }

    /// The state after the preferences `prefs` were read: they replace the
    /// earlier ones, and where they name a browser that can be launched,
    /// the list of profiles is from then on read from that browser.
    pub open spec fn with_prefs(self, prefs: PrefsModel) -> InterfaceModel {
        InterfaceModel {
            prefs,
            statefile_path: match Browser::parse(prefs.default_browser) {
                Some(browser) => if browser.is_supported() {
                    statefile_path_direct(browser.launch_definition().app_data_dir)
                } else {
                    self.statefile_path
                },
                None => self.statefile_path,
            },
            ..self
        }
    }

    /// The state after an attempt to read the preferences file. A missing
    /// or unreadable file and a file that holds no preferences change
    /// nothing.
    pub open spec fn after_prefs_file(self, file: FileOutcome) -> InterfaceModel {
        match file {
            FileOutcome::Contents(_) => match PrefsModel::of_file(file) {
                Ok(prefs) => self.with_prefs(prefs),
                Err(_) => self,
            },
            _ => self,
        }
    }

    /// What an attempt to read the local state file gives: the profiles, or
    /// the reason there are none.
    pub open spec fn profiles_in(self, statefile: FileOutcome) -> Result<
        Seq<EntryModel>,
        ValetError,
    > {
        match statefile {
            FileOutcome::Missing => Err(ValetError::NotFound),
            FileOutcome::Unreadable => Err(ValetError::IoError),
            FileOutcome::Contents(bytes) => loaded_profiles(bytes@),
        }
    }
}

/// A read of the preferences that finds no file, or fails, leaves the state
/// as it was: what was known of the default browser stays known.
pub proof fn lemma_failed_read_changes_nothing(state: InterfaceModel, file: FileOutcome)
    requires
        file is Missing || PrefsModel::of_file(file) is Err,
    ensures
        state.after_prefs_file(file) == state,
{
}

/// What the rewriting of a file gives, the member `inner` of the member
/// `outer` of its document being set to `value`: the new text of the file,
/// or the reason there is none. There is none where the file could not be
/// read, where it holds no document, and where the document or its member
/// `outer` is neither an object nor null.
pub open spec fn rewritten(
    file: FileOutcome,
    outer: Seq<char>,
    inner: Seq<char>,
    value: JsonModel,
    result: Result<Seq<char>, ValetError>,
) -> bool {
    match file {
        FileOutcome::Missing => result == Err::<Seq<char>, ValetError>(ValetError::NotFound),
        FileOutcome::Unreadable => result == Err::<Seq<char>, ValetError>(ValetError::IoError),
        FileOutcome::Contents(bytes) => match parsed_document(bytes@) {
            None => result == Err::<Seq<char>, ValetError>(ValetError::FormatError),
            Some(model) => if model.accepts_nested(outer) {
                result matches Ok(text) && is_text_of(text, model.with_nested(outer, inner, value))
            } else {
                result == Err::<Seq<char>, ValetError>(ValetError::FormatError)
            },
        },
    }
}

/// The text of a result.
pub open spec fn text_of(result: Result<String, ValetError>) -> Result<Seq<char>, ValetError> {
    match result {
        Ok(text) => Ok(text@),
        Err(error) => Err(error),
    }
}

/// The document of a file that was read.
fn document_of(file: &FileOutcome) -> (result: Result<JsonDocument, ValetError>)
    ensures
        match *file {
            FileOutcome::Missing => result == Err::<JsonDocument, ValetError>(ValetError::NotFound),
            FileOutcome::Unreadable => result == Err::<JsonDocument, ValetError>(
                ValetError::IoError,
            ),
            FileOutcome::Contents(bytes) => match parsed_document(bytes@) {
                None => result == Err::<JsonDocument, ValetError>(ValetError::FormatError),
                Some(model) => result is Ok && result->Ok_0@ == model,
            },
        },
{
    match file {
        FileOutcome::Missing => Err(ValetError::NotFound),
        FileOutcome::Unreadable => Err(ValetError::IoError),
        FileOutcome::Contents(bytes) => JsonDocument::parse(bytes.as_slice()),
    }
}

impl Default for ChromeInterface {
    fn default() -> (interface: Self)
        ensures
            interface@ == (InterfaceModel {
                profile_entries: Seq::empty(),
                statefile_path: Seq::empty(),
                prefs: PrefsModel::initial(),
            }),
    {
        let interface = ChromeInterface {
            profile_entries: Vec::new(),
            statefile_path: LocalPath::empty(),
            prefs: ProgramPrefs::default(),
        };
        assert(interface@.profile_entries =~= Seq::empty());
        interface
    }
}

impl ChromeInterface {
    /// The state before anything was read.
    pub fn new() -> (interface: Self)
        ensures
            interface@ == InterfaceModel::initial(),
    {
        let interface = ChromeInterface {
            profile_entries: Vec::new(),
            statefile_path: local_statefile_path(&Browser::Chrome),
            prefs: ProgramPrefs::default(),
        };
        assert(interface@.profile_entries =~= Seq::empty());
        interface
    }

    /// The browser to open links with, `detected` being the browser that
    /// the system was found to have as its default, or `None` where that
    /// could not be found out. A detected browser that can be launched is
    /// taken into the preferences. The answer is the browser that the
    /// preferences then name, or Chrome where they name none that can be
    /// launched.
    pub fn get_default_browser(&mut self, detected: Option<Browser>) -> (choice: BrowserChoice)
        ensures
            choice.prefs_changed == old(self)@.prefs.superseded_by(detected),
            final(self)@ == (InterfaceModel {
                prefs: if old(self)@.prefs.superseded_by(detected) {
                    old(self)@.prefs.with_browser(detected->Some_0)
                } else {
                    old(self)@.prefs
                },
                ..old(self)@
            }),
            choice.browser == final(self)@.prefs.browser(),
    {
        let mut prefs_changed = false;
        match detected {
            Some(browser) => {
                if browser != Browser::Unknown {
                    let identifier = browser.to_string();
                    if self.prefs.default_browser != identifier {
                        self.prefs.default_browser = identifier;
                        prefs_changed = true;
                    }
                }
            },
            None => {},
        }
        let browser = match Browser::try_from(&self.prefs.default_browser) {
            Ok(Browser::Unknown) => Browser::Chrome,
            Ok(browser) => browser,
            Err(_) => Browser::Chrome,
        };
        BrowserChoice { browser, prefs_changed }
    }

    /// Takes a detected browser into preferences that name the unknown
    /// browser. Tells whether it did, and the preferences are then to be
    /// stored.
    pub fn default_browser_check(&mut self, detected: Option<Browser>) -> (prefs_changed: bool)
        ensures
            prefs_changed == old(self)@.prefs.completed_by(detected),
            final(self)@ == (InterfaceModel {
                prefs: if old(self)@.prefs.completed_by(detected) {
                    old(self)@.prefs.with_browser(detected->Some_0)
                } else {
                    old(self)@.prefs
                },
                ..old(self)@
            }),
    {
        match detected {
            Some(Browser::Unknown) => false,
            Some(browser) => {
                match Browser::try_from(&self.prefs.default_browser) {
                    Ok(Browser::Unknown) => {
                        self.prefs.default_browser = browser.to_string();
                        true
                    },
                    _ => false,
                }
            },
            None => false,
        }
    }

    /// The preferences.
    pub fn prefs(&self) -> (prefs: &ProgramPrefs)
        ensures
            prefs == &self.prefs,
    {
        &self.prefs
    }

    /// The preferences, to change them.
    pub fn prefs_mut(&mut self) -> (prefs: &mut ProgramPrefs)
        ensures
            *prefs == old(self).prefs,
            *final(self) == (ChromeInterface { prefs: *final(prefs), ..*old(self) }),
    {
        &mut self.prefs
    }

    /// Makes `directory` the preferred profile. Tells whether that is a
    /// change, after which the preferences are to be stored.
    pub fn set_preferred_profile(&mut self, directory: &str) -> (changed: bool)
        ensures
            changed == (old(self)@.prefs.preferred_profile != directory@),
            final(self)@ == (InterfaceModel {
                prefs: PrefsModel { preferred_profile: directory@, ..old(self)@.prefs },
                ..old(self)@
            }),
    {
        let changed = self.prefs.preferred_profile != directory.to_owned();
        self.prefs.set_preferred_profile(directory);
        changed
    }

    /// Replaces the list of profiles by those that the local state file
    /// lists, `statefile` being what reading the file at `statefile_path`
    /// gave. Where there are none to be had, the list stays as it is and
    /// the reason is reported.
    pub fn populate_profile_entries(&mut self, statefile: &FileOutcome) -> (result: Result<
        (),
        ValetError,
    >)
        ensures
            match old(self)@.profiles_in(*statefile) {
                Ok(entries) => result is Ok && final(self)@ == (InterfaceModel {
                    profile_entries: entries,
                    ..old(self)@
                }),
                Err(error) => result == Err::<(), ValetError>(error) && final(self)@ == old(self)@,
            },
            result is Ok ==> distinct_directories(final(self)@.profile_entries),
    {
        let loaded = match statefile {
            FileOutcome::Missing => Err(ValetError::NotFound),
            FileOutcome::Unreadable => Err(ValetError::IoError),
            FileOutcome::Contents(bytes) => load_profiles(bytes.as_slice()),
        };
        match loaded {
            Ok(entries) => {
                self.profile_entries = entries;
                Ok(())
            },
            Err(error) => Err(error),
        }
    }

    /// Takes over the preferences that the preferences file holds, `file`
    /// being what reading it gave. A missing file is no failure. Where the
    /// file cannot be read or holds no preferences, nothing changes and the
    /// reason is reported.
    pub fn read_prefs(&mut self, file: &FileOutcome) -> (result: Result<(), ValetError>)
        ensures
            final(self)@ == old(self)@.after_prefs_file(*file),
            result == (match PrefsModel::of_file(*file) {
                Ok(_) => Ok::<(), ValetError>(()),
                Err(error) => Err(error),
            }),
            result is Err ==> final(self)@ == old(self)@,
    {
        match file {
            FileOutcome::Missing => {
                return Ok(());
            },
            _ => {},
        }
        match ProgramPrefs::read(file) {
            Ok(prefs) => {
                self.prefs = prefs;
            },
            Err(error) => {
                return Err(error);
            },
        }
        match Browser::try_from(&self.prefs.default_browser) {
            Ok(browser) => {
                if browser != Browser::Unknown {
                    self.statefile_path = local_statefile_path_direct(&browser);
                }
            },
            Err(_) => {},
        }
        Ok(())
    }

    /// The new text of the local state file, with `profile_name` written
    /// down as the profile that was used last, `statefile` being what
    /// reading the file at `statefile_path` gave. The text goes to Chrome's
    /// local state file.
    pub fn set_lastused_profile(&self, statefile: &FileOutcome, profile_name: &str) -> (result:
        Result<String, ValetError>)
        ensures
            rewritten(
                *statefile,
                "profile"@,
                "last_used"@,
                JsonModel::String(profile_name@),
                text_of(result),
            ),
    {
        let mut document = match document_of(statefile) {
            Ok(document) => document,
            Err(error) => {
                return Err(error);
            },
        };
        match document.set_nested_text("profile", "last_used", profile_name) {
            Ok(()) => Ok(document.to_text()),
            Err(error) => Err(error),
        }
    }

    /// The new text of the file in which the browser keeps the preferences
    /// of a profile, with the browser's own check for being the default
    /// browser switched on or off, `prefs_file` being what reading that
    /// file gave.
    pub fn set_chrome_default_browser_check(prefs_file: &FileOutcome, check: bool) -> (result:
        Result<String, ValetError>)
        ensures
            rewritten(
                *prefs_file,
                "browser"@,
                "default_browser_setting_enabled"@,
                JsonModel::Bool(check),
                text_of(result),
            ),
    {
        let mut document = match document_of(prefs_file) {
            Ok(document) => document,
            Err(error) => {
                return Err(error);
            },
        };
        match document.set_nested_flag("browser", "default_browser_setting_enabled", check) {
            Ok(()) => Ok(document.to_text()),
            Err(error) => Err(error),
        }
    }

    /// The text to store in the preferences file.
    pub fn write_prefs(&self) -> (result: Result<String, ValetError>)
        ensures
            match self@.prefs.written() {
                Some(text) => result is Ok && result->Ok_0@ == text,
                None => result == Err::<String, ValetError>(ValetError::FormatError),
            },
    {
        self.prefs.write()
    }
}

} // verus!
