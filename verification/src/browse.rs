//! Session-level state around the engine: settings, loading progress and
//! the actions the chrome can request.

use vstd::prelude::*;

verus! {

#[derive(Debug, Clone, Copy, PartialEq, Eq, Structural)]
pub struct BrowserSettings {
    pub js_enabled: bool,
    pub css_enabled: bool,
}

impl Default for BrowserSettings {
    fn default() -> (r: BrowserSettings)
        ensures
            r.js_enabled && r.css_enabled,
    {
        BrowserSettings { js_enabled: true, css_enabled: true }
    }
}

/// Bytes received so far for a document being loaded.
#[derive(Debug)]
pub struct LoadingProgress {
    pub bytes_received: u64,
    pub total_bytes: Option<u64>,
    pub url: String,
}

impl LoadingProgress {
    pub fn new(url: String) -> (r: LoadingProgress)
        ensures
            r.bytes_received == 0,
            r.total_bytes is None,
            r.url == url,
    {
        LoadingProgress { bytes_received: 0, total_bytes: None, url }
    }
}

/// What a click or key in the browser chrome asks the session to do.
#[derive(Debug, Clone)]
pub enum ChromeAction {
    Back,
    Forward,
    Navigate(String),
    FocusUrlBar,
    ToggleJs,
    ToggleCss,
    Stop,
    Reload,
}

} // verus!
