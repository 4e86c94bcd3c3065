//! The texts that the picker shows.

use vstd::prelude::*;
use vstd::string::StringExecFns;
use vstd::string::StringSliceAdditionalSpecFns;
use vstd::utf8::decode_utf8;
use vstd::utf8::encode_utf8_decode_utf8;
use vstd::utf8::is_char_boundary;

use crate::registry_utils::Browser;

verus! {

/// The number of bytes of a URL that are shown before it is cut.
pub const URL_DISPLAY_BYTES: usize = 30;

/// The heading over the list of profiles: the name of the browser with a
/// capital letter and the word `Profile`.
pub open spec fn heading(browser: Browser) -> Seq<char> {
    match browser {
        Browser::Chrome => "Chrome Profile"@,
        Browser::Brave => "Brave Profile"@,
        Browser::Unknown => " Profile"@,
    }
}

/// The heading over the list of profiles of `browser`.
pub fn profile_heading(browser: &Browser) -> (text: String)
    ensures
        text@ == heading(*browser),
{
    match browser {
        Browser::Chrome => "Chrome Profile".to_owned(),
        Browser::Brave => "Brave Profile".to_owned(),
        Browser::Unknown => " Profile".to_owned(),
    }
}

/// The URL as it is shown: whole where it has at most 30 bytes, else its
/// first 30 bytes followed by three dots. A longer URL must not have a
/// character that lies across the cut.
pub fn trimmed_url_for_display(url: &str) -> (text: String)
    requires
        url.spec_bytes().len() > URL_DISPLAY_BYTES ==> is_char_boundary(
            url.spec_bytes(),
            URL_DISPLAY_BYTES as int,
        ),
    ensures
        url.spec_bytes().len() <= URL_DISPLAY_BYTES ==> text@ == url@,
        url.spec_bytes().len() > URL_DISPLAY_BYTES ==> text@ == decode_utf8(
            url.spec_bytes().subrange(0, URL_DISPLAY_BYTES as int),
        ) + "..."@,
{
    if url.as_bytes().len() > URL_DISPLAY_BYTES {
        let (head, _) = url.split_at(URL_DISPLAY_BYTES);
        proof {
            encode_utf8_decode_utf8(head@);
            assert(head.spec_bytes() == url.spec_bytes().subrange(0, URL_DISPLAY_BYTES as int));
        }
        let mut text = head.to_owned();
        text.append("...");
        text
    } else {
        url.to_owned()
    }
}

} // verus!
