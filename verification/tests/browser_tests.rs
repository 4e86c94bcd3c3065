use chrome_valet::registry_utils::browser_exe_key;
use chrome_valet::registry_utils::browser_launch_command_key;
use chrome_valet::registry_utils::get_default_browser;
use chrome_valet::registry_utils::is_default_browser;
use chrome_valet::registry_utils::launch_definition;
use chrome_valet::text::same_text;
use chrome_valet::registry_utils::Browser;
use chrome_valet::registry_utils::PICKER_CLASS_NAME;
use chrome_valet::registry_utils::URL_ASSOCIATION_KEY;
use chrome_valet::registry_utils::URL_ASSOCIATION_VALUE;

#[test]
fn browser_identifiers() {
    assert_eq!(Browser::Chrome.to_string(), "chrome");
    assert_eq!(Browser::Brave.to_string(), "brave");
    assert_eq!(Browser::Unknown.to_string(), "");
}

#[test]
fn browser_is_named_whatever_the_case() {
    assert_eq!(Browser::try_from(&"chrome".to_string()), Ok(Browser::Chrome));
    assert_eq!(Browser::try_from(&"Chrome".to_string()), Ok(Browser::Chrome));
    assert_eq!(Browser::try_from(&"CHROME".to_string()), Ok(Browser::Chrome));
    assert_eq!(Browser::try_from(&"brave".to_string()), Ok(Browser::Brave));
    assert_eq!(Browser::try_from(&"bRaVe".to_string()), Ok(Browser::Brave));
    assert_eq!(Browser::try_from(&String::new()), Ok(Browser::Unknown));
}

#[test]
fn other_identifiers_name_no_browser() {
    assert_eq!(Browser::try_from(&"firefox".to_string()), Err("error!"));
    assert_eq!(Browser::try_from(&" chrome".to_string()), Err("error!"));
    assert_eq!(Browser::try_from(&"chrome.exe".to_string()), Err("error!"));
    assert_eq!(Browser::try_from(&"unknown".to_string()), Err("error!"));
}

#[test]
fn lowercase_identifiers_are_taken_as_they_are() {
    assert_eq!(Browser::from_lowercase("chrome"), Ok(Browser::Chrome));
    assert_eq!(Browser::from_lowercase("brave"), Ok(Browser::Brave));
    assert_eq!(Browser::from_lowercase(""), Ok(Browser::Unknown));
    assert_eq!(Browser::from_lowercase("Chrome"), Err("error!"));
    assert_eq!(Browser::from_lowercase("edge"), Err("error!"));
}

#[test]
fn identifiers_name_their_browser() {
    for browser in [Browser::Chrome, Browser::Brave, Browser::Unknown] {
        assert_eq!(Browser::try_from(&browser.to_string()), Ok(browser));
    }
}

#[test]
fn chrome_definition() {
    let definition = Browser::Chrome.get_definition().expect("a definition");
    assert_eq!(definition.browser_exe, "chrome.exe");
    assert_eq!(definition.url_class_name, "ChromeHTML");
    assert_eq!(definition.app_data_dir, "Google\\Chrome");
}

#[test]
fn brave_definition() {
    let definition = Browser::Brave.get_definition().expect("a definition");
    assert_eq!(definition.browser_exe, "brave.exe");
    assert_eq!(definition.url_class_name, "BraveHTML");
    assert_eq!(definition.app_data_dir, "BraveSoftware\\Brave-Browser");
}

#[test]
fn unknown_browser_has_no_definition() {
    assert!(Browser::Unknown.get_definition().is_none());
}

#[test]
fn unknown_browser_is_launched_as_chrome() {
    let definition = launch_definition(&Browser::Unknown);
    assert_eq!(definition.browser_exe, "chrome.exe");
    assert_eq!(definition.url_class_name, "ChromeHTML");
    assert_eq!(definition.app_data_dir, "Google\\Chrome");
    assert_eq!(launch_definition(&Browser::Brave).browser_exe, "brave.exe");
}

#[test]
fn executable_is_looked_up_under_app_paths() {
    assert_eq!(
        browser_exe_key(&Browser::Chrome),
        "SOFTWARE\\Microsoft\\Windows\\CurrentVersion\\App Paths\\chrome.exe"
    );
    assert_eq!(
        browser_exe_key(&Browser::Brave),
        "SOFTWARE\\Microsoft\\Windows\\CurrentVersion\\App Paths\\brave.exe"
    );
    assert_eq!(
        browser_exe_key(&Browser::Unknown),
        "SOFTWARE\\Microsoft\\Windows\\CurrentVersion\\App Paths\\chrome.exe"
    );
}

#[test]
fn launch_command_is_looked_up_under_the_url_class() {
    assert_eq!(
        browser_launch_command_key(&Browser::Chrome),
        "Software\\Classes\\ChromeHTML\\shell\\open\\command"
    );
    assert_eq!(
        browser_launch_command_key(&Browser::Brave),
        "Software\\Classes\\BraveHTML\\shell\\open\\command"
    );
    assert_eq!(
        browser_launch_command_key(&Browser::Unknown),
        "Software\\Classes\\ChromeHTML\\shell\\open\\command"
    );
}

#[test]
fn registry_names() {
    assert_eq!(
        URL_ASSOCIATION_KEY,
        "Software\\Microsoft\\Windows\\Shell\\Associations\\UrlAssociations\\http\\UserChoice"
    );
    assert_eq!(URL_ASSOCIATION_VALUE, "ProgID");
    assert_eq!(PICKER_CLASS_NAME, "ChromeValetURL");
}

#[test]
fn picker_is_default_when_its_class_handles_urls() {
    assert!(is_default_browser("ChromeValetURL"));
    assert!(!is_default_browser("ChromeHTML"));
    assert!(!is_default_browser("chromevaleturl"));
    assert!(!is_default_browser(""));
}

#[test]
fn default_browser_is_told_by_its_class() {
    assert_eq!(get_default_browser("ChromeHTML"), Some(Browser::Chrome));
    assert_eq!(get_default_browser("BraveHTML"), Some(Browser::Brave));
    assert_eq!(get_default_browser("ChromeValetURL"), None);
    assert_eq!(get_default_browser("MSEdgeHTM"), None);
    assert_eq!(get_default_browser("chromehtml"), None);
    assert_eq!(get_default_browser(""), None);
}

#[test]
fn same_text_compares_characters() {
    assert!(same_text("", ""));
    assert!(same_text("profile", "profile"));
    assert!(!same_text("profile", "Profile"));
    assert!(!same_text("profile", "profiles"));
    assert!(same_text("päß", "päß"));
}
