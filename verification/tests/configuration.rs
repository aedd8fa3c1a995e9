use desktop_shell::config::{
    apply_defaults, config_file, webview_height, webview_initial_url, webview_width,
    window_height, window_position, window_title, window_width, AppConfig, WebViewConfig,
    WindowConfig,
};

#[test]
fn default_values() {
    assert_eq!(window_width(), 800);
    assert_eq!(window_height(), 600);
    assert_eq!(window_title(), "Stremio Shell");
    assert_eq!(window_position(), (i32::MIN, i32::MIN));
    assert_eq!(webview_initial_url(), "http://localhost:3000");
    assert_eq!(webview_width(), 800);
    assert_eq!(webview_height(), 600);
}

#[test]
fn config_file_joins_directory() {
    assert_eq!(config_file("/home/u/.config/shell"), "/home/u/.config/shell/config.json");
    assert_eq!(config_file(""), "/config.json");
}

#[test]
fn apply_defaults_fills_absent_settings() {
    let mut config = AppConfig {
        window: WindowConfig {
            width: 0,
            height: 0,
            title: String::new(),
            position: (0, 0),
        },
        webview: WebViewConfig {
            initial_url: String::new(),
            user_data_path: String::from("/data"),
            width: 0,
            height: 0,
        },
    };
    apply_defaults(&mut config);
    assert_eq!(config.window.width, 800);
    assert_eq!(config.window.height, 600);
    assert_eq!(config.window.title, "Stremio Shell");
    assert_eq!(config.window.position, (i32::MIN, i32::MIN));
    assert_eq!(config.webview.initial_url, "http://localhost:3000");
    assert_eq!(config.webview.width, 800);
    assert_eq!(config.webview.height, 600);
    assert_eq!(config.webview.user_data_path, "/data");
}

#[test]
fn apply_defaults_keeps_present_settings() {
    let mut config = AppConfig {
        window: WindowConfig {
            width: 1280,
            height: 720,
            title: String::from("My Shell"),
            position: (40, 60),
        },
        webview: WebViewConfig {
            initial_url: String::from("https://example.invalid/app"),
            user_data_path: String::from("/data"),
            width: 1280,
            height: 720,
        },
    };
    apply_defaults(&mut config);
    assert_eq!(config.window.width, 1280);
    assert_eq!(config.window.height, 720);
    assert_eq!(config.window.title, "My Shell");
    assert_eq!(config.window.position, (40, 60));
    assert_eq!(config.webview.initial_url, "https://example.invalid/app");
    assert_eq!(config.webview.width, 1280);
    assert_eq!(config.webview.height, 720);
}
