use whiskers_launcher::paths::{
    get_api_dir, get_app_dir, get_autostart_dir, get_dialog_request_path, get_extension_request_path,
    get_extension_response_path, get_extensions_dir, get_indexing_extensions_path, get_settings_path,
    get_themes_store_path, Platform,
};

fn linux() -> Platform {
    Platform { windows: false, home_dir: "/home/u".to_string(), app_data: None, temp_dir: None }
}

fn windows() -> Platform {
    Platform {
        windows: true,
        home_dir: "C:\\Users\\u".to_string(),
        app_data: Some("C:\\Users\\u\\AppData\\Roaming".to_string()),
        temp_dir: Some("C:\\Temp".to_string()),
    }
}

#[test]
fn linux_locations() {
    let p = linux();
    assert_eq!(get_app_dir(&p), "/home/u/.local/share/com-whiskersapps-launcher");
    assert_eq!(get_extensions_dir(&p), "/home/u/.local/share/com-whiskersapps-launcher/extensions");
    assert_eq!(get_settings_path(&p), "/home/u/.config/whiskers-launcher/settings.bin");
    assert_eq!(get_indexing_extensions_path(&p), "/home/u/.cache/whiskers-launcher-indexing/extensions.bin");
    assert_eq!(get_api_dir(&p), "/tmp/whiskers-launcher-api");
    assert_eq!(get_extension_request_path(&p), "/tmp/whiskers-launcher-api/extension-request.bin");
    assert_eq!(get_extension_response_path(&p), "/tmp/whiskers-launcher-api/extension-response.bin");
    assert_eq!(get_dialog_request_path(&p), "/tmp/whiskers-launcher-api/dialog-request.bin");
    assert_eq!(get_autostart_dir(&p), "/home/u/.config/autostart");
    assert_eq!(get_themes_store_path(&p), "/home/u/.local/share/com-whiskersapps-launcher/stores/themes.json");
}

#[test]
fn windows_locations() {
    let p = windows();
    assert_eq!(get_app_dir(&p), "C:\\Users\\u\\AppData\\Roaming\\com-whiskersapps-launcher");
    assert_eq!(get_settings_path(&p), "C:\\Users\\u\\AppData\\Roaming\\com-whiskersapps-launcher\\settings.bin");
    assert_eq!(get_api_dir(&p), "C:\\Temp\\whiskers-launcher-api");
    assert_eq!(
        get_autostart_dir(&p),
        "C:\\Users\\u\\AppData\\Roaming\\Microsoft\\Windows\\Start Menu\\Programs\\Startup"
    );
}
