//! The window that shows the web gallery.

use crate::text::join;
use vstd::prelude::*;

verus! {

/// Address of the web gallery.
pub const GALLERY_URL: &'static str = "https://imalink.trollfjell.com";

/// Label of the gallery window.
pub const WINDOW_LABEL: &'static str = "gallery";

/// Title of the gallery window.
pub const WINDOW_TITLE: &'static str = "Imalink Gallery";

/// Inner width of the gallery window, in logical pixels.
pub const WINDOW_WIDTH: u32 = 1200;

/// Inner height of the gallery window, in logical pixels.
pub const WINDOW_HEIGHT: u32 = 800;

/// Address that the gallery window opens. A token rides in the fragment,
/// which stays with the client and is not sent to the server.
pub open spec fn gallery_address(token: Option<Seq<char>>) -> Seq<char> {
    match token {
        Some(t) => "https://imalink.trollfjell.com/#token="@ + t,
        None => GALLERY_URL@,
    }
}

/// Builds the address that the gallery window opens.
pub fn gallery_url(token: Option<&str>) -> (url: String)
    ensures
        url@ == gallery_address(
            match token {
                Some(t) => Some(t@),
                None => None,
            },
        ),
{
    match token {
        Some(t) => join("https://imalink.trollfjell.com/#token=", t),
        None => String::from_str(GALLERY_URL),
    }
}

/// Message for a gallery address that is no URL.
pub fn invalid_url(error: &str) -> (message: String)
    ensures
        message@ == "Invalid URL: "@ + error@,
{
    join("Invalid URL: ", error)
}

/// Message for a gallery window that could not be created.
pub fn window_failure(error: &str) -> (message: String)
    ensures
        message@ == "Failed to create gallery window: "@ + error@,
{
    join("Failed to create gallery window: ", error)
}

} // verus!
