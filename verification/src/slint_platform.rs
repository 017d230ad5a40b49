//! The platform adapter state handed to the GUI rendering layer, with its
//! in-process clipboard store.

use vstd::prelude::*;
use vstd::string::StringExecFns;

verus! {

/// The clipboard a text operation addresses. Only the default clipboard is
/// backed by storage; every other clipboard is ignored.
#[derive(Clone, Copy, Debug, PartialEq, Eq, Structural)]
pub enum Clipboard {
    DefaultClipboard,
    SelectionClipboard,
}

/// The state behind the GUI layer's platform adapter: an in-process text
/// clipboard.
pub struct PluginCanvasPlatform {
    pub clipboard: Option<String>,
}

impl Default for PluginCanvasPlatform {
    /// A fresh adapter with an empty clipboard.
    fn default() -> (r: PluginCanvasPlatform)
        ensures
            r.clipboard is None,
    {
        PluginCanvasPlatform { clipboard: None }
    }
}

impl PluginCanvasPlatform {
    /// A fresh adapter with an empty clipboard.
    pub fn new() -> (r: PluginCanvasPlatform)
        ensures
            r.clipboard is None,
    {
        PluginCanvasPlatform { clipboard: None }
    }

    /// Stores text on the default clipboard; a request for any other
    /// clipboard leaves the store untouched.
    pub fn set_clipboard_text(&mut self, text: &str, clipboard: Clipboard)
        ensures
            clipboard is DefaultClipboard ==> (final(self).clipboard matches Some(s) && s@
                == text@),
            !(clipboard is DefaultClipboard) ==> final(self).clipboard == old(self).clipboard,
    {
        match clipboard {
            Clipboard::DefaultClipboard => {
                self.clipboard = Some(String::from_str(text));
            },
            _ => {},
        }
    }

    /// Reads the text stored on the default clipboard; a request for any
    /// other clipboard yields nothing.
    pub fn clipboard_text(&self, clipboard: Clipboard) -> (r: Option<String>)
        ensures
            clipboard is DefaultClipboard ==> r == self.clipboard,
            !(clipboard is DefaultClipboard) ==> r is None,
    {
        match clipboard {
            Clipboard::DefaultClipboard => {
                match &self.clipboard {
                    Some(text) => Some(text.clone()),
                    None => None,
                }
            },
            _ => None,
        }
    }
}

} // verus!
