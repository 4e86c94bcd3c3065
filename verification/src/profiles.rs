//! The profiles of a browser, as its local state file lists them.
//!
//! The file is a JSON document. Its member `profile` holds a member
//! `info_cache`, an object with one member for each profile: the key is the
//! profile's directory, the value an object with what the browser knows of
//! the profile.

use vstd::prelude::*;

use crate::color::argb_channels;
use crate::color::decode_argb;
use crate::error::ValetError;
use crate::json::distinct_keys;
use crate::json::lemma_member_named_found;
use crate::json::parsed_document;
use crate::json::JsonMember;
use crate::json::JsonModel;
use crate::json::JsonValue;
use crate::json::MemberModel;
use crate::picture::ChromeProfilePicture;
use crate::picture::PictureModel;

verus! {

/// One profile of the browser.
#[derive(Debug)]
pub struct ChromeProfileEntry {
    /// The profile's directory below the browser's user data.
    pub profile_directory: String,
    /// The name under which the browser shows the profile.
    pub profile_name: String,
    /// The picture of the profile.
    pub profile_picture: ChromeProfilePicture,
}

/// A `ChromeProfileEntry` as a mathematical value.
pub struct EntryModel {
    pub profile_directory: Seq<char>,
    pub profile_name: Seq<char>,
    pub profile_picture: PictureModel,
}

impl View for ChromeProfileEntry {
    type V = EntryModel;

    open spec fn view(&self) -> EntryModel {
        EntryModel {
            profile_directory: self.profile_directory@,
            profile_name: self.profile_name@,
            profile_picture: self.profile_picture@,
        }
    }
}

/// The entries of a list as mathematical values.
pub open spec fn entry_models(entries: Seq<ChromeProfileEntry>) -> Seq<EntryModel> {
    Seq::new(entries.len(), |i: int| entries[i]@)
}

/// The text of the member `key` of what the browser knows of a profile:
/// empty where there is no such member or it is no string.
pub open spec fn text_field(data: JsonModel, key: Seq<char>) -> Seq<char> {
    match data.get(key) {
        Some(JsonModel::String(text)) => text,
        _ => Seq::empty(),
    }
}

/// The packed colour of a profile: zero, which is transparent black, where
/// the member `default_avatar_fill_color` is absent or no integer.
pub open spec fn fill_color(data: JsonModel) -> int {
    match data.get("default_avatar_fill_color"@) {
        Some(JsonModel::Number(Some(packed))) => packed as int,
        _ => 0,
    }
}

/// The entry of the profile in `directory`, of which the browser knows
/// `data`.
pub open spec fn entry_of(directory: Seq<char>, data: JsonModel) -> EntryModel {
    EntryModel {
        profile_directory: directory,
        profile_name: text_field(data, "shortcut_name"@),
        profile_picture: PictureModel::fresh(
            directory,
            text_field(data, "gaia_picture_file_name"@),
            argb_channels(fill_color(data)),
        ),
    }
}

/// The members of `profile.info_cache`, where the document is an object
/// that holds an object `profile` that holds an object `info_cache`.
pub open spec fn info_cache(document: JsonModel) -> Option<Seq<MemberModel>> {
    match document.get("profile"@) {
        Some(profile) => match profile.get("info_cache"@) {
            Some(JsonModel::Object(members)) => Some(members),
            _ => None,
        },
        None => None,
    }
}

/// The profiles that a local state document lists, in the order of the
/// members of `profile.info_cache`; a format error where there is no such
/// object or one of its members is no object.
pub open spec fn listed_profiles(document: JsonModel) -> Result<Seq<EntryModel>, ValetError> {
    match info_cache(document) {
        None => Err(ValetError::FormatError),
        Some(members) => if forall|i: int|
            0 <= i < members.len() ==> (#[trigger] members[i]).value is Object {
            Ok(
                Seq::new(
                    members.len(),
                    |i: int| entry_of(members[i].key, members[i].value),
                ),
            )
        } else {
            Err(ValetError::FormatError)
        },
    }
}

/// The profiles that the bytes of a local state file list.
pub open spec fn loaded_profiles(statefile: Seq<u8>) -> Result<Seq<EntryModel>, ValetError> {
    match parsed_document(statefile) {
        None => Err(ValetError::FormatError),
        Some(document) => listed_profiles(document),
    }
}

/// No two entries are of the same directory.
pub open spec fn distinct_directories(entries: Seq<EntryModel>) -> bool {
    forall|i: int, j: int|
        0 <= i < j < entries.len() ==> (#[trigger] entries[i]).profile_directory
            != (#[trigger] entries[j]).profile_directory
}

/// A well-formed document lists each profile once: there are as many
/// entries as `profile.info_cache` has members, the entry at each position
/// is that of the member at that position, and no two entries are of the
/// same directory.
pub proof fn lemma_one_entry_per_profile(document: JsonModel)
    requires
        document.well_formed(),
        listed_profiles(document) is Ok,
    ensures
        info_cache(document) is Some,
        listed_profiles(document)->Ok_0.len() == info_cache(document)->Some_0.len(),
        forall|i: int|
            0 <= i < info_cache(document)->Some_0.len() ==> (#[trigger] listed_profiles(
                document,
            )->Ok_0[i]).profile_directory == info_cache(document)->Some_0[i].key,
        distinct_directories(listed_profiles(document)->Ok_0),
{
    let members = info_cache(document)->Some_0;
    lemma_members_of_member(document, "profile"@);
    let profile = document.get("profile"@)->Some_0;
    lemma_members_of_member(profile, "info_cache"@);
    assert(distinct_keys(members));
    let entries = listed_profiles(document)->Ok_0;
    assert forall|i: int, j: int| 0 <= i < j < entries.len() implies (#[trigger] entries[i]).profile_directory
        != (#[trigger] entries[j]).profile_directory by {
        assert(members[i].key != members[j].key);
    }
}

/// A member of a well-formed object is well formed.
proof fn lemma_members_of_member(value: JsonModel, key: Seq<char>)
    requires
        value.well_formed(),
        value.get(key) is Some,
    ensures
        value.get(key)->Some_0.well_formed(),
{
    let members = value->Object_0;
    lemma_member_named_found(members, key);
}

fn text_of(data: &JsonValue, key: &str) -> (text: String)
    ensures
        text@ == text_field(data@, key@),
{
    match data.get(key) {
        Some(value) => match value.as_str() {
            Some(text) => text.to_owned(),
            None => String::new(),
        },
        None => String::new(),
    }
}

fn color_of(data: &JsonValue) -> (color: [u8; 4])
    ensures
        color@ == argb_channels(fill_color(data@)),
{
    let packed: i64 = match data.get("default_avatar_fill_color") {
        Some(value) => match value.as_i64() {
            Some(packed) => packed,
            None => 0,
        },
        None => 0,
    };
    decode_argb(packed)
}

impl ChromeProfileEntry {
    /// The entry of the profile in `directory`, of which the browser knows
    /// `data`.
    pub fn from_json(directory: &str, data: &JsonValue) -> (entry: Self)
        ensures
            entry@ == entry_of(directory@, data@),
    {
        let picture_file = text_of(data, "gaia_picture_file_name");
        let color = color_of(data);
        ChromeProfileEntry {
            profile_directory: directory.to_owned(),
            profile_name: text_of(data, "shortcut_name"),
            profile_picture: ChromeProfilePicture::new(
                directory,
                picture_file.as_str(),
                &color,
            ),
        }
    }
}

/// The members of `profile.info_cache` of a local state document.
fn info_cache_of(document: &JsonValue) -> (members: Option<&Vec<JsonMember>>)
    ensures
        match info_cache(document@) {
            Some(model) => members is Some && members->Some_0@.len() == model.len()
                && forall|i: int|
                0 <= i < model.len() ==> (#[trigger] members->Some_0@[i])@ == model[i],
            None => members is None,
        },
{
    match document.get("profile") {
        Some(profile) => match profile.get("info_cache") {
            Some(cache) => cache.as_object(),
            None => None,
        },
        None => None,
    }
}

/// The profiles that a local state document lists, in the order of the
/// members of `profile.info_cache`.
pub fn profiles_from_json(document: &JsonValue) -> (result: Result<
    Vec<ChromeProfileEntry>,
    ValetError,
>)
    ensures
        match listed_profiles(document@) {
            Ok(models) => result is Ok && entry_models(result->Ok_0@) == models,
            Err(error) => result == Err::<Vec<ChromeProfileEntry>, ValetError>(error),
        },
        document@.well_formed() && result is Ok ==> distinct_directories(
            entry_models(result->Ok_0@),
        ),
{
    let members = match info_cache_of(document) {
        Some(members) => members,
        None => {
            return Err(ValetError::FormatError);
        },
    };
    let ghost models = info_cache(document@)->Some_0;
    let mut entries: Vec<ChromeProfileEntry> = Vec::new();
    let mut i: usize = 0;
    while i < members.len()
        invariant
            i <= members@.len(),
            members@.len() == models.len(),
            info_cache(document@) == Some(models),
            forall|k: int| 0 <= k < models.len() ==> (#[trigger] members@[k])@ == models[k],
            forall|k: int| 0 <= k < i ==> (#[trigger] models[k]).value is Object,
            entries@.len() == i,
            forall|k: int|
                0 <= k < i ==> (#[trigger] entries@[k])@ == entry_of(
                    models[k].key,
                    models[k].value,
                ),
        decreases members@.len() - i,
    {
        let member = &members[i];
        match &member.value {
            JsonValue::Object(_) => {},
            _ => {
                assert(!(models[i as int].value is Object));
                return Err(ValetError::FormatError);
            },
        }
        let entry = ChromeProfileEntry::from_json(member.key.as_str(), &member.value);
        entries.push(entry);
        i += 1;
    }
    assert(entry_models(entries@) =~= listed_profiles(document@)->Ok_0);
    proof {
        if document@.well_formed() {
            lemma_one_entry_per_profile(document@);
        }
    }
    Ok(entries)
}

/// The profiles that the bytes of a local state file list: one entry for
/// each member of `profile.info_cache`, in the order of the document, none
/// twice.
pub fn load_profiles(statefile: &[u8]) -> (result: Result<Vec<ChromeProfileEntry>, ValetError>)
    ensures
        match loaded_profiles(statefile@) {
            Ok(models) => result is Ok && entry_models(result->Ok_0@) == models,
            Err(error) => result == Err::<Vec<ChromeProfileEntry>, ValetError>(error),
        },
        result matches Ok(entries) ==> distinct_directories(entry_models(entries@)),
{
    match JsonValue::parse(statefile) {
        Ok(document) => profiles_from_json(&document),
        Err(error) => Err(error),
    }
}

} // verus!
