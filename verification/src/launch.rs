//! What to start in order to open a link, and when to do so without
//! showing the picker.
//!
//! The library plans a launch; the caller looks the executable up in the
//! registry, starts it, and ends the program where the plan says so.

use vstd::prelude::*;
use vstd::string::StringExecFns;

use crate::registry_utils::app_paths_key;
use crate::registry_utils::browser_exe_key;
use crate::registry_utils::Browser;

verus! {

/// One start of a browser.
#[derive(Debug)]
pub struct LaunchPlan {
    /// The registry key, under the local machine, whose default value is
    /// the path of the executable to start.
    pub exe_key: String,
    /// The arguments to start it with, in their order.
    pub arguments: Vec<String>,
    /// Whether the picker ends once the browser was started.
    pub exit_when_done: bool,
}

/// A `LaunchPlan` as a mathematical value.
pub struct LaunchModel {
    pub exe_key: Seq<char>,
    pub arguments: Seq<Seq<char>>,
    pub exit_when_done: bool,
}

impl View for LaunchPlan {
    type V = LaunchModel;

    open spec fn view(&self) -> LaunchModel {
        LaunchModel {
            exe_key: self.exe_key@,
            arguments: Seq::new(self.arguments@.len(), |i: int| self.arguments@[i]@),
            exit_when_done: self.exit_when_done,
        }
    }
}

/// The arguments that open `url`: the profile to open it in, where one is
/// given, and then the URL as a single argument.
pub open spec fn launch_arguments(url: Seq<char>, profile_name: Option<Seq<char>>) -> Seq<
    Seq<char>,
> {
    match profile_name {
        Some(name) => seq!["--profile-directory="@ + name, "--single-argument"@, url],
        None => seq!["--single-argument"@, url],
    }
}

/// The start of `browser` that opens `url`.
pub open spec fn planned(
    browser: Browser,
    url: Seq<char>,
    profile_name: Option<Seq<char>>,
    exit_when_done: bool,
) -> LaunchModel {
    LaunchModel {
        exe_key: app_paths_key(browser.launch_definition().browser_exe),
        arguments: launch_arguments(url, profile_name),
        exit_when_done,
    }
}

/// The start with which the picker opens a link right away, if it does:
/// there is a link, the user did not ask for the picker, and the Alt key is
/// not held. The link then opens in the preferred profile, or in the
/// browser's own choice of profile where none is preferred.
pub open spec fn planned_at_startup(
    force_ui: bool,
    alt_pressed: bool,
    url: Option<Seq<char>>,
    preferred_profile: Seq<char>,
    default_browser: Browser,
) -> Option<LaunchModel> {
    match url {
        Some(url) => if !force_ui && !alt_pressed {
            Some(
                planned(
                    default_browser,
                    url,
                    if preferred_profile.len() > 0 {
                        Some(preferred_profile)
                    } else {
                        None
                    },
                    true,
                ),
            )
        } else {
            None
        },
        None => None,
    }
}

/// Plans the start of `browser` that opens `url` in the profile
/// `profile_name`, or in the browser's own choice of profile where none is
/// given. The unknown browser is started as Chrome.
pub fn open_url_in_chrome(
    browser: &Browser,
    url: &String,
    profile_name: Option<&String>,
    exit_when_done: bool,
) -> (plan: LaunchPlan)
    ensures
        plan@ == planned(
            *browser,
            url@,
            match profile_name {
                Some(name) => Some(name@),
                None => None,
            },
            exit_when_done,
        ),
{
    let mut arguments: Vec<String> = Vec::new();
    match profile_name {
        Some(name) => {
            let mut argument = "--profile-directory=".to_owned();
            argument.append(name.as_str());
            arguments.push(argument);
        },
        None => {},
    }
    arguments.push("--single-argument".to_owned());
    arguments.push(url.clone());
    let plan = LaunchPlan { exe_key: browser_exe_key(browser), arguments, exit_when_done };
    assert(plan@.arguments =~= launch_arguments(
        url@,
        match profile_name {
            Some(name) => Some(name@),
            None => None,
        },
    ));
    plan
}

/// What is left to do when the picker cannot go on: where there is a link,
/// it is opened in Chrome, in the browser's own choice of profile, and the
/// picker ends.
pub fn soft_panic(url: &Option<String>) -> (plan: Option<LaunchPlan>)
    ensures
        match *url {
            Some(url) => plan is Some && plan->Some_0@ == planned(Browser::Chrome, url@, None, true),
            None => plan is None,
        },
{
    match url {
        Some(url) => Some(open_url_in_chrome(&Browser::Chrome, url, None, true)),
        None => None,
    }
}

/// Plans the start with which the picker opens a link right away, if it
/// does.
pub fn launch_at_startup(
    force_ui: bool,
    alt_pressed: bool,
    url: &Option<String>,
    preferred_profile: &String,
    default_browser: &Browser,
) -> (plan: Option<LaunchPlan>)
    ensures
        match planned_at_startup(
            force_ui,
            alt_pressed,
            match *url {
                Some(url) => Some(url@),
                None => None,
            },
            preferred_profile@,
            *default_browser,
        ) {
            Some(model) => plan is Some && plan->Some_0@ == model,
            None => plan is None,
        },
{
    match url {
        Some(url) => {
            if !force_ui && !alt_pressed {
                let profile = if !preferred_profile.as_str().is_empty() {
                    Some(preferred_profile)
                } else {
                    None
                };
                Some(open_url_in_chrome(default_browser, url, profile, true))
            } else {
                None
            }
        },
        None => None,
    }
}

} // verus!
