//! The browsers that the picker knows, what is fixed about each of them, and
//! how the answers of the Windows registry are read.
//!
//! The registry itself is queried by the caller; this module names the keys
//! to query and interprets what was found under them.

use vstd::prelude::*;
use vstd::string::StringExecFns;

use crate::text::same_text;

verus! {

/// What is fixed about one browser.
#[derive(Debug)]
pub struct BrowserDefinition {
    /// File name of the executable.
    pub browser_exe: String,
    /// Name of the registry class that handles URLs for the browser.
    pub url_class_name: String,
    /// The browser's directory below the user's local application data.
    pub app_data_dir: String,
}

/// A `BrowserDefinition` as a mathematical value.
pub struct DefinitionModel {
    pub browser_exe: Seq<char>,
    pub url_class_name: Seq<char>,
    pub app_data_dir: Seq<char>,
}

impl View for BrowserDefinition {
    type V = DefinitionModel;

    open spec fn view(&self) -> DefinitionModel {
        DefinitionModel {
            browser_exe: self.browser_exe@,
            url_class_name: self.url_class_name@,
            app_data_dir: self.app_data_dir@,
        }
    }
}

/// A browser that can be the system's default.
#[derive(Clone, Copy, Debug, PartialEq, Eq, Structural)]
pub enum Browser {
    Chrome,
    Brave,
    Unknown,
}

/// The registry key, under the current user, that holds the user's choice of
/// a handler for `http` URLs.
pub const URL_ASSOCIATION_KEY: &'static str =
    "Software\\Microsoft\\Windows\\Shell\\Associations\\UrlAssociations\\http\\UserChoice";

/// The value, under `URL_ASSOCIATION_KEY`, that names the class of the
/// handler.
pub const URL_ASSOCIATION_VALUE: &'static str = "ProgID";

/// What is said of an identifier that names no browser.
pub const NO_BROWSER: &'static str = "error!";

/// The class under which the picker registers itself as a handler.
pub const PICKER_CLASS_NAME: &'static str = "ChromeValetURL";

/// The registry key, under the local machine, where the path of the
/// installed program with the executable `browser_exe` is stored.
pub open spec fn app_paths_key(browser_exe: Seq<char>) -> Seq<char> {
    "SOFTWARE\\Microsoft\\Windows\\CurrentVersion\\App Paths\\"@ + browser_exe
}

/// The registry key, under the local machine, whose default value is the
/// command line that opens a URL with the handler class `url_class_name`.
pub open spec fn open_command_key(url_class_name: Seq<char>) -> Seq<char> {
    "Software\\Classes\\"@ + url_class_name + "\\shell\\open\\command"@
}

/// What `str::to_lowercase` makes of a string.
pub uninterp spec fn lowercase(text: Seq<char>) -> Seq<char>;

/// `str::to_lowercase`: the lowercase equivalent of `text` as a new string.
/// The contract only names the result.
#[verifier::external_body]
fn to_lowercase(text: &str) -> (lowered: String)
    ensures
        lowered@ == lowercase(text@),
{
    text.to_lowercase()
}

impl Browser {
    /// The identifier under which the browser is stored in the preferences:
    /// empty for the unknown browser.
    pub open spec fn identifier(self) -> Seq<char> {
        match self {
            Browser::Chrome => "chrome"@,
            Browser::Brave => "brave"@,
            Browser::Unknown => Seq::empty(),
        }
    }

    /// The browser that an identifier names once it is in lower case, or
    /// `None` where it names none.
    pub open spec fn named_by(lowered: Seq<char>) -> Option<Browser> {
        if lowered == "chrome"@ {
            Some(Browser::Chrome)
        } else if lowered == "brave"@ {
            Some(Browser::Brave)
        } else if lowered.len() == 0 {
            Some(Browser::Unknown)
        } else {
            None
        }
    }

    /// The browser that an identifier names, whatever the case of its
    /// letters.
    pub open spec fn parse(identifier: Seq<char>) -> Option<Browser> {
        Self::named_by(lowercase(identifier))
    }

    /// Whether the browser is one that can be launched: any but the unknown
    /// one.
    pub open spec fn is_supported(self) -> bool {
        self != Browser::Unknown
    }

    /// What is fixed about the browser; nothing for the unknown browser.
    pub open spec fn definition(self) -> Option<DefinitionModel> {
        match self {
            Browser::Chrome => Some(
                DefinitionModel {
                    browser_exe: "chrome.exe"@,
                    url_class_name: "ChromeHTML"@,
                    app_data_dir: "Google\\Chrome"@,
                },
            ),
            Browser::Brave => Some(
                DefinitionModel {
                    browser_exe: "brave.exe"@,
                    url_class_name: "BraveHTML"@,
                    app_data_dir: "BraveSoftware\\Brave-Browser"@,
                },
            ),
            Browser::Unknown => None,
        }
    }

    /// The definition with which the browser is looked up and started: its
    /// own, or Chrome's where it has none.
    pub open spec fn launch_definition(self) -> DefinitionModel {
        match self.definition() {
            Some(definition) => definition,
            None => Browser::Chrome.definition()->Some_0,
        }
    }

    /// The handler that a registered class name stands for.
    pub open spec fn of_class(prog_id: Seq<char>) -> Option<Browser> {
        if prog_id == "ChromeHTML"@ {
            Some(Browser::Chrome)
        } else if prog_id == "BraveHTML"@ {
            Some(Browser::Brave)
        } else {
            None
        }
    }

    /// The identifier of the browser.
    pub fn to_string(&self) -> (text: String)
        ensures
            text@ == self.identifier(),
    {
        match self {
            Browser::Chrome => "chrome".to_owned(),
            Browser::Brave => "brave".to_owned(),
            Browser::Unknown => String::new(),
        }
    }

    /// The browser that an identifier in lower case names: `chrome`, `brave`
    /// or, for the empty identifier, the unknown browser.
    pub fn from_lowercase(lowered: &str) -> (result: Result<Browser, &'static str>)
        ensures
            match Self::named_by(lowered@) {
                Some(browser) => result == Ok::<Browser, &'static str>(browser),
                None => result is Err && result->Err_0@ == NO_BROWSER@,
            },
    {
        if same_text(lowered, "chrome") {
            Ok(Browser::Chrome)
        } else if same_text(lowered, "brave") {
            Ok(Browser::Brave)
        } else if lowered.is_empty() {
            Ok(Browser::Unknown)
        } else {
            Err(NO_BROWSER)
        }
    }

    /// The browser that an identifier names, whatever the case of its
    /// letters.
    pub fn try_from(value: &String) -> (result: Result<Browser, &'static str>)
        ensures
            match Self::parse(value@) {
                Some(browser) => result == Ok::<Browser, &'static str>(browser),
                None => result is Err && result->Err_0@ == NO_BROWSER@,
            },
    {
        let lowered = to_lowercase(value.as_str());
        Self::from_lowercase(lowered.as_str())
    }

    /// What is fixed about the browser; nothing for the unknown browser.
    pub fn get_definition(&self) -> (definition: Option<BrowserDefinition>)
        ensures
            match self.definition() {
                Some(model) => definition is Some && definition->Some_0@ == model,
                None => definition is None,
            },
    {
        match *self {
            Browser::Chrome => Some(
                BrowserDefinition {
                    browser_exe: "chrome.exe".to_owned(),
                    url_class_name: "ChromeHTML".to_owned(),
                    app_data_dir: "Google\\Chrome".to_owned(),
                },
            ),
            Browser::Brave => Some(
                BrowserDefinition {
                    browser_exe: "brave.exe".to_owned(),
                    url_class_name: "BraveHTML".to_owned(),
                    app_data_dir: "BraveSoftware\\Brave-Browser".to_owned(),
                },
            ),
            Browser::Unknown => None,
        }
    }
}

/// The definition with which `browser` is looked up and started: its own, or
/// Chrome's where it has none.
pub fn launch_definition(browser: &Browser) -> (definition: BrowserDefinition)
    ensures
        definition@ == browser.launch_definition(),
{
    match browser.get_definition() {
        Some(definition) => definition,
        None => BrowserDefinition {
            browser_exe: "chrome.exe".to_owned(),
            url_class_name: "ChromeHTML".to_owned(),
            app_data_dir: "Google\\Chrome".to_owned(),
        },
    }
}

/// The registry key, under the local machine, whose default value is the
/// path of the executable of `browser_type`.
pub fn browser_exe_key(browser_type: &Browser) -> (key: String)
    ensures
        key@ == app_paths_key(browser_type.launch_definition().browser_exe),
{
    let definition = launch_definition(browser_type);
    let mut key = "SOFTWARE\\Microsoft\\Windows\\CurrentVersion\\App Paths\\".to_owned();
    key.append(definition.browser_exe.as_str());
    key
}

/// The registry key, under the local machine, whose default value is the
/// command line with which `browser_type` opens a URL.
pub fn browser_launch_command_key(browser_type: &Browser) -> (key: String)
    ensures
        key@ == open_command_key(browser_type.launch_definition().url_class_name),
{
    let definition = launch_definition(browser_type);
    let mut key = "Software\\Classes\\".to_owned();
    key.append(definition.url_class_name.as_str());
    key.append("\\shell\\open\\command");
    key
}

/// Whether the picker is the system's default browser, given the class name
/// found under `URL_ASSOCIATION_KEY`.
pub fn is_default_browser(prog_id: &str) -> (is_default: bool)
    ensures
        is_default == (prog_id@ == PICKER_CLASS_NAME@),
{
    same_text(prog_id, PICKER_CLASS_NAME)
}

/// The browser that is the system's default, given the class name found
/// under `URL_ASSOCIATION_KEY`; `None` where the class is that of no browser
/// that the picker knows.
pub fn get_default_browser(prog_id: &str) -> (browser: Option<Browser>)
    ensures
        browser == Browser::of_class(prog_id@),
{
    if same_text(prog_id, "ChromeHTML") {
        Some(Browser::Chrome)
    } else if same_text(prog_id, "BraveHTML") {
        Some(Browser::Brave)
    } else {
        None
    }
}

} // verus!
