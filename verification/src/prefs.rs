//! The preferences that the picker keeps between runs, and the JSON
//! document in which they are stored.

use vstd::prelude::*;
use vstd::string::StringExecFns;

use crate::error::FileOutcome;
use crate::error::ValetError;
use crate::json::member_named;
use crate::json::parsed_document;
use crate::json::string_literal;
use crate::json::write_string;
use crate::json::JsonModel;
use crate::json::JsonValue;
use crate::json::MemberModel;
use crate::paths::prefs_file;
use crate::paths::prefs_file_path;
use crate::paths::LocalPath;

verus! {

/// What the user chose and what was found out about the system.
#[derive(Debug)]
pub struct ProgramPrefs {
    /// Directory of the profile that opens links without asking; empty
    /// where the user chose none.
    pub preferred_profile: String,
    /// Identifier of the browser that was last found to be the system's
    /// default; empty where none is known.
    pub default_browser: String,
}

/// `ProgramPrefs` as a mathematical value.
pub struct PrefsModel {
    pub preferred_profile: Seq<char>,
    pub default_browser: Seq<char>,
}

impl View for ProgramPrefs {
    type V = PrefsModel;

    open spec fn view(&self) -> PrefsModel {
        PrefsModel {
            preferred_profile: self.preferred_profile@,
            default_browser: self.default_browser@,
        }
    }
}

/// Whether a member of the preferences document can be read: it is absent
/// or a string.
pub open spec fn readable_text(member: Option<JsonModel>) -> bool {
    member matches Some(value) ==> value is String
}

/// The text of a member of the preferences document: empty where the member
/// is absent.
pub open spec fn text_or_empty(member: Option<JsonModel>) -> Seq<char> {
    match member {
        Some(JsonModel::String(text)) => text,
        _ => Seq::empty(),
    }
}

impl PrefsModel {
    /// The preferences of a fresh installation: nothing chosen, nothing
    /// known.
    pub open spec fn initial() -> PrefsModel {
        PrefsModel { preferred_profile: Seq::empty(), default_browser: Seq::empty() }
    }

    /// The preferences that a document holds: it must be an object, and each
    /// of the members `preferred_profile` and `default_browser` a string or
    /// absent. Other members are not looked at.
    pub open spec fn of_document(document: JsonModel) -> Option<PrefsModel> {
        match document {
            JsonModel::Object(members) => {
                let preferred = member_named(members, "preferred_profile"@);
                let browser = member_named(members, "default_browser"@);
                if readable_text(preferred) && readable_text(browser) {
                    Some(
                        PrefsModel {
                            preferred_profile: text_or_empty(preferred),
                            default_browser: text_or_empty(browser),
                        },
                    )
                } else {
                    None
                }
            },
            _ => None,
        }
    }

    /// The document that holds the preferences and nothing else.
    pub open spec fn document(self) -> JsonModel {
        JsonModel::Object(
            seq![
                MemberModel {
                    key: "preferred_profile"@,
                    value: JsonModel::String(self.preferred_profile),
                },
                MemberModel {
                    key: "default_browser"@,
                    value: JsonModel::String(self.default_browser),
                },
            ],
        )
    }

    /// What reading the preferences file gives: the preferences of a fresh
    /// installation where there is no file, the failure where the file
    /// cannot be read or holds no preferences, else what it holds.
    pub open spec fn of_file(file: FileOutcome) -> Result<PrefsModel, ValetError> {
        match file {
            FileOutcome::Missing => Ok(Self::initial()),
            FileOutcome::Unreadable => Err(ValetError::IoError),
            FileOutcome::Contents(bytes) => match parsed_document(bytes@) {
                None => Err(ValetError::FormatError),
                Some(document) => match Self::of_document(document) {
                    Some(prefs) => Ok(prefs),
                    None => Err(ValetError::FormatError),
                },
            },
        }
    }

    /// The text of the preferences file, where `serde_json` writes both
    /// strings.
    pub open spec fn written(self) -> Option<Seq<char>> {
        match (string_literal(self.preferred_profile), string_literal(self.default_browser)) {
            (Some(preferred), Some(browser)) => Some(document_text(preferred, browser)),
            _ => None,
        }
    }
}

/// The text of a preferences file, given the two values as JSON strings.
pub open spec fn document_text(preferred: Seq<char>, browser: Seq<char>) -> Seq<char> {
    "{\"preferred_profile\":"@ + preferred + ",\"default_browser\":"@ + browser + "}"@
}

impl Default for ProgramPrefs {
    fn default() -> (prefs: Self)
        ensures
            prefs@ == PrefsModel::initial(),
    {
        ProgramPrefs { preferred_profile: String::new(), default_browser: String::new() }
    }
}

/// The text of a member that is a string, empty for an absent member;
/// `None` for a member that is anything else.
fn member_text(document: &JsonValue, key: &str) -> (text: Option<String>)
    requires
        document@ is Object,
    ensures
        match text {
            Some(text) => readable_text(document@.get(key@)) && text@ == text_or_empty(
                document@.get(key@),
            ),
            None => !readable_text(document@.get(key@)),
        },
{
    match document.get(key) {
        None => Some(String::new()),
        Some(value) => match value.as_str() {
            Some(text) => Some(text.to_owned()),
            None => None,
        },
    }
}

impl ProgramPrefs {
    /// The directory of the preferred profile.
    pub fn get_preferred_profile(&self) -> (profile_dir: String)
        ensures
            profile_dir@ == self@.preferred_profile,
    {
        self.preferred_profile.clone()
    }

    /// Makes `profile_dir` the preferred profile.
    pub fn set_preferred_profile(&mut self, profile_dir: &str)
        ensures
            final(self)@ == (PrefsModel { preferred_profile: profile_dir@, ..old(self)@ }),
    {
        self.preferred_profile = profile_dir.to_owned();
    }

    /// The file that holds the preferences.
    pub fn prefs_path() -> (path: LocalPath)
        ensures
            path@ == prefs_file_path(),
    {
        prefs_file()
    }

    /// The preferences that a document holds.
    pub fn from_json(document: &JsonValue) -> (result: Result<ProgramPrefs, ValetError>)
        ensures
            match PrefsModel::of_document(document@) {
                Some(model) => result is Ok && result->Ok_0@ == model,
                None => result == Err::<ProgramPrefs, ValetError>(ValetError::FormatError),
            },
    {
        match document {
            JsonValue::Object(_) => {
                let preferred = member_text(document, "preferred_profile");
                let browser = member_text(document, "default_browser");
                match (preferred, browser) {
                    (Some(preferred_profile), Some(default_browser)) => Ok(
                        ProgramPrefs { preferred_profile, default_browser },
                    ),
                    _ => Err(ValetError::FormatError),
                }
            },
            _ => Err(ValetError::FormatError),
        }
    }

    /// The preferences, given what reading the preferences file gave. A
    /// missing file is no failure: it stands for the preferences of a fresh
    /// installation.
    pub fn read(file: &FileOutcome) -> (result: Result<ProgramPrefs, ValetError>)
        ensures
            match PrefsModel::of_file(*file) {
                Ok(model) => result is Ok && result->Ok_0@ == model,
                Err(error) => result == Err::<ProgramPrefs, ValetError>(error),
            },
    {
        match file {
            FileOutcome::Missing => Ok(ProgramPrefs::default()),
            FileOutcome::Unreadable => Err(ValetError::IoError),
            FileOutcome::Contents(bytes) => match JsonValue::parse(bytes.as_slice()) {
                Ok(document) => Self::from_json(&document),
                Err(error) => Err(error),
            },
        }
    }

    /// The text of a preferences file, given the two values as JSON strings.
    pub fn frame(preferred: &str, browser: &str) -> (text: String)
        ensures
            text@ == document_text(preferred@, browser@),
    {
        let mut text = "{\"preferred_profile\":".to_owned();
        text.append(preferred);
        text.append(",\"default_browser\":");
        text.append(browser);
        text.append("}");
        text
    }

    /// The text to store in the preferences file.
    pub fn write(&self) -> (result: Result<String, ValetError>)
        ensures
            match self@.written() {
                Some(text) => result is Ok && result->Ok_0@ == text,
                None => result == Err::<String, ValetError>(ValetError::FormatError),
            },
    {
        let preferred = match write_string(self.preferred_profile.as_str()) {
            Ok(literal) => literal,
            Err(_) => {
                return Err(ValetError::FormatError);
            },
        };
        let browser = match write_string(self.default_browser.as_str()) {
            Ok(literal) => literal,
            Err(_) => {
                return Err(ValetError::FormatError);
            },
        };
        Ok(Self::frame(preferred.as_str(), browser.as_str()))
    }
}

/// Reading back: the document that holds given preferences and nothing else
/// is read as those preferences.
pub proof fn lemma_document_read_back(prefs: PrefsModel)
    ensures
        PrefsModel::of_document(prefs.document()) == Some(prefs),
{
    reveal_strlit("preferred_profile");
    reveal_strlit("default_browser");
    assert("preferred_profile"@.len() != "default_browser"@.len());
    let members = prefs.document()->Object_0;
    assert(member_named(members, "preferred_profile"@) == Some(
        JsonModel::String(prefs.preferred_profile),
    ));
    assert(members.drop_first()[0] == members[1]);
    assert(member_named(members.drop_first(), "default_browser"@) == Some(
        JsonModel::String(prefs.default_browser),
    ));
}

} // verus!
