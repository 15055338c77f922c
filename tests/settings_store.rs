use whiskers_launcher::api::settings::{autostart_change, settings_or_default};
use whiskers_launcher::paths::Platform;
use whiskers_launcher::settings::{get_default_settings, Settings, DEFAULT_SCALING_BITS};

fn linux() -> Platform {
    Platform { windows: false, home_dir: "/home/u".to_string(), app_data: None, temp_dir: None }
}

fn assert_default(st: &Settings) {
    assert_eq!(st.first_key, "ctrl");
    assert_eq!(st.second_key, None);
    assert_eq!(st.third_key, "space");
    assert_eq!(f32::from_bits(st.scaling_bits), 1.0f32);
    assert!(st.auto_start);
    assert!(st.show_recent_apps);
    assert!(!st.split_results);
    assert!(st.show_search_icon);
    assert!(st.show_settings_icon);
    assert!(st.show_placeholder);
    assert!(!st.accent_search_border);
    assert!(st.hide_on_blur);
    assert_eq!(st.border_radius, 18);
    assert_eq!(st.border_width, 1);
    assert!(st.highlight_selected_background);
    assert!(st.show_alt_hint);
    assert_eq!(st.results_count, 6);
    assert!(st.blacklist.is_empty());
    assert_eq!(st.search_keyword, "s");
    assert_eq!(st.default_search_engine, 0);
    assert_eq!(st.theme.background, "#0E0600");
    assert_eq!(st.theme.accent, "#FFE072");
    assert_eq!(st.theme.sub_text, "#E5D2C5");
    assert!(st.extensions.is_empty());
}

#[test]
fn undecodable_settings_fall_back_to_defaults() {
    let st = settings_or_default(None, &linux());
    assert_default(&st);
}

#[test]
fn decoded_settings_are_kept() {
    let mut stored = get_default_settings(&linux());
    stored.results_count = 12;
    stored.auto_start = false;
    let st = settings_or_default(Some(stored), &linux());
    assert_eq!(st.results_count, 12);
    assert!(!st.auto_start);
}

#[test]
fn default_search_engines() {
    let st = get_default_settings(&linux());
    let e = &st.search_engines;
    assert_eq!(e.len(), 4);
    assert_eq!(
        e[0].icon_path.as_deref(),
        Some("/home/u/.local/share/com-whiskersapps-launcher/resources/icons/google.svg")
    );
    assert_eq!(e[0].keyword, "gs");
    assert_eq!(e[1].name, "DuckDuckGo");
    assert_eq!(e[2].search_query, "https://search.brave.com/search?q=%s");
    assert_eq!(e[3].icon_path, None);
    assert!(!e[3].tint_icon);
    assert_eq!(e[3].id, 3);
    assert_eq!(DEFAULT_SCALING_BITS, 1.0f32.to_bits());
}

#[test]
fn autostart_change_only_on_transition() {
    let a = get_default_settings(&linux());
    let mut b = get_default_settings(&linux());
    assert_eq!(autostart_change(&a, &b), None);
    b.auto_start = false;
    assert_eq!(autostart_change(&a, &b), Some(false));
    assert_eq!(autostart_change(&b, &a), Some(true));
}
