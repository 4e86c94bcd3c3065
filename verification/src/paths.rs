//! Where the files that the picker reads and writes lie.
//!
//! All of them lie below the user's directory for local application data.
//! The library names each by the parts that lead to it from there; the
//! caller knows the directory and joins the parts to it, one after the
//! other.

use vstd::prelude::*;
use vstd::string::StringExecFns;

use crate::registry_utils::launch_definition;
use crate::registry_utils::Browser;

verus! {

/// The directory of the picker's own files.
pub const PROGRAM_NAME: &'static str = "ChromeValet";

/// A path below the user's directory for local application data: the parts
/// to join to that directory, in their order. Without parts it names no
/// file.
#[derive(Debug)]
pub struct LocalPath {
    pub parts: Vec<String>,
}

impl View for LocalPath {
    type V = Seq<Seq<char>>;

    open spec fn view(&self) -> Seq<Seq<char>> {
        Seq::new(self.parts@.len(), |i: int| self.parts@[i]@)
    }
}

/// The directory of the picker's own files.
pub open spec fn app_data_path() -> Seq<Seq<char>> {
    seq![PROGRAM_NAME@]
}

/// The file that holds the picker's preferences.
pub open spec fn prefs_file_path() -> Seq<Seq<char>> {
    seq![PROGRAM_NAME@, "prefs.json"@]
}

/// The file in which a browser with the data directory `browser_dir` keeps
/// the list of its profiles, part by part.
pub open spec fn statefile_path(browser_dir: Seq<char>) -> Seq<Seq<char>> {
    seq![browser_dir, "User Data"@, "Local State"@]
}

/// The file in which a browser with the data directory `browser_dir` keeps
/// the list of its profiles, as one part.
pub open spec fn statefile_path_direct(browser_dir: Seq<char>) -> Seq<Seq<char>> {
    seq![browser_dir + "/User Data/Local State"@]
}

/// The file in which Chrome keeps the list of its profiles, as one part.
pub open spec fn chrome_statefile_path() -> Seq<Seq<char>> {
    seq!["Google/Chrome/User Data/Local State"@]
}

/// The picture file `img_filename` that the browser cached for the profile
/// in `profile_dir`.
pub open spec fn picture_path(profile_dir: Seq<char>, img_filename: Seq<char>) -> Seq<Seq<char>> {
    seq!["Google"@, "Chrome"@, "User Data"@, profile_dir, img_filename]
}

/// The file in which the browser keeps the preferences of the profile in
/// `profile_dir`.
pub open spec fn profile_prefs_path(profile_dir: Seq<char>) -> Seq<Seq<char>> {
    seq!["Google"@, "Chrome"@, profile_dir, "Preferences"@]
}

impl LocalPath {
    /// The path without parts, which names no file.
    pub fn empty() -> (path: LocalPath)
        ensures
            path@ == Seq::<Seq<char>>::empty(),
    {
        let path = LocalPath { parts: Vec::new() };
        assert(path@ =~= Seq::<Seq<char>>::empty());
        path
    }

    /// Whether the path has no parts.
    pub fn is_empty(&self) -> (empty: bool)
        ensures
            empty == (self@.len() == 0),
    {
        self.parts.len() == 0
    }

    /// The last part of the path, which is the name of the file; empty
    /// where the path has no parts.
    pub fn file_name(&self) -> (name: &str)
        ensures
            name@ == (if self@.len() > 0 {
                self@.last()
            } else {
                Seq::empty()
            }),
    {
        if self.parts.len() > 0 {
            self.parts[self.parts.len() - 1].as_str()
        } else {
            let name = "";
            proof {
                reveal_strlit("");
            }
            assert(name@ =~= Seq::<char>::empty());
            name
        }
    }

    /// The path with one more part.
    fn joined(self, part: String) -> (path: LocalPath)
        ensures
            path@ == self@.push(part@),
    {
        let mut parts = self.parts;
        parts.push(part);
        let path = LocalPath { parts };
        assert(path@ =~= self@.push(part@));
        path
    }
}

/// The directory of the picker's own files.
pub fn app_data_dir() -> (path: LocalPath)
    ensures
        path@ == app_data_path(),
{
    let path = LocalPath::empty().joined(PROGRAM_NAME.to_owned());
    assert(path@ =~= app_data_path());
    path
}

/// The file that holds the picker's preferences.
pub fn prefs_file() -> (path: LocalPath)
    ensures
        path@ == prefs_file_path(),
{
    let path = app_data_dir().joined("prefs.json".to_owned());
    assert(path@ =~= prefs_file_path());
    path
}

/// The picture file `img_filename` that the browser cached for the profile
/// in `profile_dir`.
pub fn cached_picture_path(profile_dir: &str, img_filename: &str) -> (path: LocalPath)
    ensures
        path@ == picture_path(profile_dir@, img_filename@),
{
    let path = LocalPath::empty().joined("Google".to_owned()).joined("Chrome".to_owned()).joined(
        "User Data".to_owned(),
    ).joined(profile_dir.to_owned()).joined(img_filename.to_owned());
    assert(path@ =~= picture_path(profile_dir@, img_filename@));
    path
}

/// The file in which `browser` keeps the list of its profiles, part by
/// part. The unknown browser is looked up as Chrome.
pub fn local_statefile_path(browser: &Browser) -> (path: LocalPath)
    ensures
        path@ == statefile_path(browser.launch_definition().app_data_dir),
{
    let definition = launch_definition(browser);
    let path = LocalPath::empty().joined(definition.app_data_dir).joined(
        "User Data".to_owned(),
    ).joined("Local State".to_owned());
    assert(path@ =~= statefile_path(browser.launch_definition().app_data_dir));
    path
}

/// The same file as it is named once the preferences have told the browser:
/// with the whole way below the local application data as one part.
pub fn local_statefile_path_direct(browser: &Browser) -> (path: LocalPath)
    ensures
        path@ == statefile_path_direct(browser.launch_definition().app_data_dir),
{
    let definition = launch_definition(browser);
    let mut rest = definition.app_data_dir;
    rest.append("/User Data/Local State");
    let path = LocalPath::empty().joined(rest);
    assert(path@ =~= statefile_path_direct(browser.launch_definition().app_data_dir));
    path
}

/// The file in which Chrome keeps the list of its profiles, where the
/// profile that was used last is written down.
pub fn lastused_statefile_path() -> (path: LocalPath)
    ensures
        path@ == chrome_statefile_path(),
{
    let path = LocalPath::empty().joined("Google/Chrome/User Data/Local State".to_owned());
    assert(path@ =~= chrome_statefile_path());
    path
}

/// The file in which the browser keeps the preferences of the profile in
/// `profile_dir`.
pub fn chrome_prefs_path(profile_dir: &str) -> (path: LocalPath)
    ensures
        path@ == profile_prefs_path(profile_dir@),
{
    let path = LocalPath::empty().joined("Google".to_owned()).joined("Chrome".to_owned()).joined(
        profile_dir.to_owned(),
    ).joined("Preferences".to_owned());
    assert(path@ =~= profile_prefs_path(profile_dir@));
    path
}

} // verus!
