use chrome_valet::error::ValetError;
use chrome_valet::json::JsonMember;
use chrome_valet::json::JsonValue;
use chrome_valet::picture::Avatar;
use chrome_valet::profiles::load_profiles;
use chrome_valet::profiles::profiles_from_json;
use chrome_valet::profiles::ChromeProfileEntry;

fn load(text: &str) -> Result<Vec<ChromeProfileEntry>, ValetError> {
    load_profiles(text.as_bytes())
}

fn picture_path(directory: &str, file: &str) -> Vec<String> {
    vec![
        "Google".to_string(),
        "Chrome".to_string(),
        "User Data".to_string(),
        directory.to_string(),
        file.to_string(),
    ]
}

fn object(members: Vec<(&str, JsonValue)>) -> JsonValue {
    JsonValue::Object(
        members.into_iter().map(|(key, value)| JsonMember { key: key.to_string(), value }).collect(),
    )
}

#[test]
fn one_profile_with_a_name_and_a_colour() {
    let entries = load(
        "{\"profile\": {\"info_cache\": {\"Default\": {\"shortcut_name\": \"Work\", \
         \"default_avatar_fill_color\": 4282090197}}}}",
    )
    .expect("profiles");
    assert_eq!(entries.len(), 1);
    assert_eq!(entries[0].profile_directory, "Default");
    assert_eq!(entries[0].profile_name, "Work");
    assert!(entries[0].profile_picture.picture_filename.is_empty());
    assert_eq!(entries[0].profile_picture.profile_color, [0x3B, 0x82, 0xD5, 0xFF]);
    assert!(matches!(entries[0].profile_picture.avatar, Avatar::Unresolved));
}

#[test]
fn one_profile_with_a_grey_colour() {
    let mut entries = load(
        "{\"profile\": {\"info_cache\": {\"Default\": {\"shortcut_name\": \"Work\", \
         \"default_avatar_fill_color\": 4283782485}}}}",
    )
    .expect("profiles");
    assert_eq!(entries.len(), 1);
    assert_eq!(entries[0].profile_name, "Work");
    // 4283782485 is 0xFF555555
    assert_eq!(entries[0].profile_picture.profile_color, [0x55, 0x55, 0x55, 0xFF]);
    let picture = &mut entries[0].profile_picture;
    assert_eq!(picture.get_picture(&chrome_valet::error::FileOutcome::Missing), Ok(()));
    let img = picture.img().expect("an avatar");
    assert_eq!(img.rgba[4 * (64 * 128 + 64)..4 * (64 * 128 + 64) + 4], [0x55, 0x55, 0x55, 0xFF]);
    assert_eq!(img.rgba[0..4], [0x55, 0x55, 0x55, 0]);
}

#[test]
fn work_profile_gets_a_disc_of_its_colour() {
    let mut entries = load(
        "{\"profile\": {\"info_cache\": {\"Default\": {\"shortcut_name\": \"Work\", \
         \"default_avatar_fill_color\": 4282090197}}}}",
    )
    .expect("profiles");
    let picture = &mut entries[0].profile_picture;
    assert!(!picture.wants_file());
    assert_eq!(picture.get_picture(&chrome_valet::error::FileOutcome::Missing), Ok(()));
    let img = picture.img().expect("an avatar");
    assert_eq!((img.width, img.height), (128, 128));
    for y in 0..128i64 {
        for x in 0..128i64 {
            let at = 4 * (y * 128 + x) as usize;
            let inside = (x - 64) * (x - 64) + (y - 64) * (y - 64) <= 64 * 64;
            let expected = [0x3B, 0x82, 0xD5, if inside { 0xFF } else { 0 }];
            assert_eq!(img.rgba[at..at + 4], expected);
        }
    }
}

#[test]
fn every_profile_is_listed_once_in_document_order() {
    let entries = load(
        "{\"profile\": {\"info_cache\": {\
         \"Profile 3\": {\"shortcut_name\": \"Three\"}, \
         \"Default\": {\"shortcut_name\": \"Main\"}, \
         \"Profile 1\": {\"shortcut_name\": \"One\"}, \
         \"Guest Profile\": {}}}}",
    )
    .expect("profiles");
    let directories: Vec<&str> = entries.iter().map(|e| e.profile_directory.as_str()).collect();
    assert_eq!(directories, vec!["Profile 3", "Default", "Profile 1", "Guest Profile"]);
    let names: Vec<&str> = entries.iter().map(|e| e.profile_name.as_str()).collect();
    assert_eq!(names, vec!["Three", "Main", "One", ""]);
}

#[test]
fn repeated_directory_is_listed_once() {
    let entries = load(
        "{\"profile\": {\"info_cache\": {\
         \"Default\": {\"shortcut_name\": \"First\"}, \
         \"Other\": {\"shortcut_name\": \"Other\"}, \
         \"Default\": {\"shortcut_name\": \"Second\"}}}}",
    )
    .expect("profiles");
    assert_eq!(entries.len(), 2);
    assert_eq!(entries[0].profile_directory, "Default");
    assert_eq!(entries[0].profile_name, "Second");
    assert_eq!(entries[1].profile_directory, "Other");
}

#[test]
fn many_profiles_are_all_listed() {
    let mut text = String::from("{\"profile\": {\"info_cache\": {");
    for i in 0..50 {
        if i > 0 {
            text.push(',');
        }
        text.push_str(&format!("\"Profile {}\": {{\"shortcut_name\": \"P{}\"}}", i, i));
    }
    text.push_str("}}}");
    let entries = load(&text).expect("profiles");
    assert_eq!(entries.len(), 50);
    for (i, entry) in entries.iter().enumerate() {
        assert_eq!(entry.profile_directory, format!("Profile {}", i));
        assert_eq!(entry.profile_name, format!("P{}", i));
    }
}

#[test]
fn no_profiles_gives_an_empty_list() {
    let entries = load("{\"profile\": {\"info_cache\": {}}}").expect("profiles");
    assert!(entries.is_empty());
}

#[test]
fn absent_fields_take_their_defaults() {
    let entries = load("{\"profile\": {\"info_cache\": {\"Default\": {}}}}").expect("profiles");
    assert_eq!(entries.len(), 1);
    assert_eq!(entries[0].profile_directory, "Default");
    assert_eq!(entries[0].profile_name, "");
    assert!(entries[0].profile_picture.picture_filename.is_empty());
    assert_eq!(entries[0].profile_picture.profile_color, [0, 0, 0, 0]);
}

#[test]
fn fields_of_another_type_take_their_defaults() {
    let entries = load(
        "{\"profile\": {\"info_cache\": {\"Default\": {\"shortcut_name\": 7, \
         \"gaia_picture_file_name\": null, \"default_avatar_fill_color\": \"red\"}}}}",
    )
    .expect("profiles");
    assert_eq!(entries[0].profile_name, "");
    assert!(entries[0].profile_picture.picture_filename.is_empty());
    assert_eq!(entries[0].profile_picture.profile_color, [0, 0, 0, 0]);
    let fraction = load(
        "{\"profile\": {\"info_cache\": {\"Default\": {\"default_avatar_fill_color\": 1.5}}}}",
    )
    .expect("profiles");
    assert_eq!(fraction[0].profile_picture.profile_color, [0, 0, 0, 0]);
}

#[test]
fn colour_may_be_a_negative_number() {
    let entries = load(
        "{\"profile\": {\"info_cache\": {\"Default\": {\"default_avatar_fill_color\": -12877099}}}}",
    )
    .expect("profiles");
    assert_eq!(entries[0].profile_picture.profile_color, [0x3B, 0x82, 0xD5, 0xFF]);
}

#[test]
fn cached_picture_is_found_below_the_user_data() {
    let entries = load(
        "{\"profile\": {\"info_cache\": {\"Profile 1\": {\
         \"gaia_picture_file_name\": \"Google Profile Picture.png\", \
         \"shortcut_name\": \"Home\", \"default_avatar_fill_color\": -1}}}}",
    )
    .expect("profiles");
    assert_eq!(
        entries[0].profile_picture.picture_filename.parts,
        picture_path("Profile 1", "Google Profile Picture.png")
    );
    assert!(entries[0].profile_picture.wants_file());
    assert_eq!(entries[0].profile_picture.profile_color, [255, 255, 255, 255]);
}

#[test]
fn other_members_of_the_document_are_passed_over() {
    let entries = load(
        "{\"browser\": {\"x\": [1, 2]}, \"profile\": {\"last_used\": \"Default\", \
         \"info_cache\": {\"Default\": {\"name\": \"Person 1\", \"shortcut_name\": \"Work\", \
         \"is_ephemeral\": false}}, \"profiles_order\": [\"Default\"]}, \"zoom\": 1.25}",
    )
    .expect("profiles");
    assert_eq!(entries.len(), 1);
    assert_eq!(entries[0].profile_name, "Work");
}

#[test]
fn info_cache_that_is_an_array_is_a_format_error() {
    let result = load("{\"profile\": {\"info_cache\": [{\"shortcut_name\": \"Work\"}]}}");
    assert_eq!(result.err(), Some(ValetError::FormatError));
}

#[test]
fn document_of_another_shape_is_a_format_error() {
    for text in [
        "[]",
        "null",
        "\"profile\"",
        "17",
        "{}",
        "{\"profile\": null}",
        "{\"profile\": []}",
        "{\"profile\": {}}",
        "{\"profile\": {\"info_cache\": null}}",
        "{\"profile\": {\"info_cache\": \"none\"}}",
        "{\"profile\": {\"info_cache\": 3}}",
        "{\"info_cache\": {\"Default\": {}}}",
    ] {
        assert_eq!(load(text).err(), Some(ValetError::FormatError), "{}", text);
    }
}

#[test]
fn profile_that_is_no_object_is_a_format_error() {
    for text in [
        "{\"profile\": {\"info_cache\": {\"Default\": null}}}",
        "{\"profile\": {\"info_cache\": {\"Default\": \"Work\"}}}",
        "{\"profile\": {\"info_cache\": {\"Default\": {}, \"Profile 1\": []}}}",
        "{\"profile\": {\"info_cache\": {\"Default\": 1, \"Profile 1\": {}}}}",
    ] {
        assert_eq!(load(text).err(), Some(ValetError::FormatError), "{}", text);
    }
}

#[test]
fn bytes_that_are_no_document_are_a_format_error() {
    assert_eq!(load("").err(), Some(ValetError::FormatError));
    assert_eq!(load("{\"profile\": {\"info_cache\": {").err(), Some(ValetError::FormatError));
    assert_eq!(load_profiles(&[0xff, 0x00]).err(), Some(ValetError::FormatError));
}

#[test]
fn profiles_are_read_from_a_tree() {
    let document = object(vec![(
        "profile",
        object(vec![(
            "info_cache",
            object(vec![
                (
                    "Default",
                    object(vec![
                        ("shortcut_name", JsonValue::String("Work".to_string())),
                        ("default_avatar_fill_color", JsonValue::Number(Some(0x12345678))),
                    ]),
                ),
                (
                    "Profile 1",
                    object(vec![
                        ("gaia_picture_file_name", JsonValue::String("pic.png".to_string())),
                        ("default_avatar_fill_color", JsonValue::Number(None)),
                    ]),
                ),
            ]),
        )]),
    )]);
    let entries = profiles_from_json(&document).expect("profiles");
    assert_eq!(entries.len(), 2);
    assert_eq!(entries[0].profile_directory, "Default");
    assert_eq!(entries[0].profile_name, "Work");
    assert_eq!(entries[0].profile_picture.profile_color, [0x34, 0x56, 0x78, 0x12]);
    assert_eq!(entries[1].profile_directory, "Profile 1");
    assert_eq!(entries[1].profile_name, "");
    assert_eq!(
        entries[1].profile_picture.picture_filename.parts,
        picture_path("Profile 1", "pic.png")
    );
    assert_eq!(entries[1].profile_picture.profile_color, [0, 0, 0, 0]);
}

#[test]
fn tree_of_another_shape_is_a_format_error() {
    assert_eq!(profiles_from_json(&JsonValue::Null).err(), Some(ValetError::FormatError));
    let array_cache =
        object(vec![("profile", object(vec![("info_cache", JsonValue::Array(vec![]))]))]);
    assert_eq!(profiles_from_json(&array_cache).err(), Some(ValetError::FormatError));
    let scalar_profile = object(vec![(
        "profile",
        object(vec![("info_cache", object(vec![("Default", JsonValue::Bool(true))]))]),
    )]);
    assert_eq!(profiles_from_json(&scalar_profile).err(), Some(ValetError::FormatError));
}

#[test]
fn entry_is_made_of_what_the_browser_knows() {
    let data = object(vec![
        ("shortcut_name", JsonValue::String("Büro".to_string())),
        ("gaia_picture_file_name", JsonValue::String(String::new())),
        ("default_avatar_fill_color", JsonValue::Number(Some(-1))),
    ]);
    let entry = ChromeProfileEntry::from_json("Profile 7", &data);
    assert_eq!(entry.profile_directory, "Profile 7");
    assert_eq!(entry.profile_name, "Büro");
    assert!(entry.profile_picture.picture_filename.is_empty());
    assert_eq!(entry.profile_picture.profile_color, [255, 255, 255, 255]);
}
