//! Shell configuration: the window and web-surface settings, their default
//! values, and the rule that fills absent settings in from the defaults.
//!
//! Reading and writing the configuration file is the host program's job;
//! this module only owns the values and the defaulting rule.

use vstd::prelude::*;
use vstd::string::*;

verus! {

/// Settings of the host window.
pub struct WindowConfig {
    pub width: i32,
    pub height: i32,
    pub title: String,
    pub position: (i32, i32),
}

/// Settings of the hosted web surface.
pub struct WebViewConfig {
    pub initial_url: String,
    pub user_data_path: String,
    pub width: i32,
    pub height: i32,
}

/// The whole shell configuration.
pub struct AppConfig {
    pub window: WindowConfig,
    pub webview: WebViewConfig,
}

pub fn window_width() -> (r: i32)
    ensures
        r == 800,
{
    800
}

pub fn window_height() -> (r: i32)
    ensures
        r == 600,
{
    600
}

pub fn window_title() -> (r: String)
    ensures
        r@ == "Stremio Shell"@,
{
    String::from_str("Stremio Shell")
}

/// A coordinate pair that asks the platform to choose the placement itself.
pub fn window_position() -> (r: (i32, i32))
    ensures
        r == (i32::MIN, i32::MIN),
{
    (i32::MIN, i32::MIN)
}

pub fn webview_initial_url() -> (r: String)
    ensures
        r@ == "http://localhost:3000"@,
{
    String::from_str("http://localhost:3000")
}

pub fn webview_width() -> (r: i32)
    ensures
        r == 800,
{
    800
}

pub fn webview_height() -> (r: i32)
    ensures
        r == 600,
{
    600
}

/// The configuration file's place under a given configuration directory.
pub fn config_file(config_dir: &str) -> (r: String)
    ensures
        r@ == config_dir@ + "/config.json"@,
{
    let mut path = String::from_str(config_dir);
    path.append("/config.json");
    path
}

/// Fill every absent setting in from the defaults: a zero width, height or
/// position and an empty title or URL stand for "not set"; everything that
/// is set stays exactly as it was.
pub fn apply_defaults(c: &mut AppConfig)
    ensures
        final(c).window.width == (if old(c).window.width == 0 {
            800int
        } else {
            old(c).window.width as int
        }),
        final(c).window.height == (if old(c).window.height == 0 {
            600int
        } else {
            old(c).window.height as int
        }),
        final(c).window.position == (if old(c).window.position == (0i32, 0i32) {
            (i32::MIN, i32::MIN)
        } else {
            old(c).window.position
        }),
        final(c).window.title@ == (if old(c).window.title@.len() == 0 {
            "Stremio Shell"@
        } else {
            old(c).window.title@
        }),
        final(c).webview.initial_url@ == (if old(c).webview.initial_url@.len() == 0 {
            "http://localhost:3000"@
        } else {
            old(c).webview.initial_url@
        }),
        final(c).webview.width == (if old(c).webview.width == 0 {
            800int
        } else {
            old(c).webview.width as int
        }),
        final(c).webview.height == (if old(c).webview.height == 0 {
            600int
        } else {
            old(c).webview.height as int
        }),
        final(c).webview.user_data_path == old(c).webview.user_data_path,
{
    if c.window.title.as_str().unicode_len() == 0 {
        c.window.title = window_title();
    }
    if c.window.position.0 == 0 && c.window.position.1 == 0 {
        c.window.position = window_position();
    }
    if c.window.width == 0 {
        c.window.width = window_width();
    }
    if c.window.height == 0 {
        c.window.height = window_height();
    }
    if c.webview.initial_url.as_str().unicode_len() == 0 {
        c.webview.initial_url = webview_initial_url();
    }
    if c.webview.width == 0 {
        c.webview.width = webview_width();
    }
    if c.webview.height == 0 {
        c.webview.height = webview_height();
    }
}

} // verus!
