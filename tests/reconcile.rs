use whiskers_launcher::api::extensions::{
    collect_manifests, find_extension, get_extension_setting, merge_extension_settings,
    reconcile_settings, declared_settings,
};
use whiskers_launcher::extension::{Extension, ExtensionSetting as Declared, SettingType};
use whiskers_launcher::paths::Platform;
use whiskers_launcher::settings::{get_default_settings, ExtensionSetting, Settings};

fn s(x: &str) -> String {
    x.to_string()
}

fn platform() -> Platform {
    Platform { windows: false, home_dir: s("/home/u"), app_data: None, temp_dir: None }
}

fn declared(id: &str, default_value: &str) -> Declared {
    Declared {
        id: s(id),
        title: s(id),
        description: s(""),
        setting_type: SettingType::Input,
        default_value: s(default_value),
        show_conditions: None,
        select_options: None,
        os: s("*"),
    }
}

fn manifest(id: &str, keyword: &str, settings: Option<Vec<Declared>>) -> Extension {
    Extension {
        id: s(id),
        name: s(id),
        description: s(""),
        keyword: s(keyword),
        settings,
        os: s("*"),
    }
}

fn entry(e: &str, id: &str, v: &str) -> ExtensionSetting {
    ExtensionSetting { extension_id: s(e), setting_id: s(id), setting_value: s(v) }
}

fn triples(v: &[ExtensionSetting]) -> Vec<(String, String, String)> {
    v.iter()
        .map(|e| (e.extension_id.clone(), e.setting_id.clone(), e.setting_value.clone()))
        .collect()
}

fn store_with(entries: Vec<ExtensionSetting>) -> Settings {
    let mut st = get_default_settings(&platform());
    st.extensions = entries;
    st
}

fn value(st: &Settings, e: &str, id: &str) -> Option<String> {
    get_extension_setting(st, &s(e), &s(id))
}

#[test]
fn first_discovery_uses_manifest_keyword_and_defaults() {
    let mut st = store_with(vec![]);
    let m = vec![manifest("E", "orig", Some(vec![declared("x", "orig-default")]))];
    reconcile_settings(&mut st, &m);
    assert_eq!(
        triples(&st.extensions),
        vec![
            (s("E"), s("keyword"), s("orig")),
            (s("E"), s("x"), s("orig-default")),
        ]
    );
}

#[test]
fn user_edits_are_preserved() {
    let mut st = store_with(vec![entry("E", "keyword", "custom"), entry("E", "x", "user-set")]);
    let m = vec![manifest("E", "orig", Some(vec![declared("x", "orig-default")]))];
    reconcile_settings(&mut st, &m);
    assert_eq!(value(&st, "E", "keyword"), Some(s("custom")));
    assert_eq!(value(&st, "E", "x"), Some(s("user-set")));
    assert_eq!(st.extensions.len(), 2);
}

#[test]
fn new_setting_is_adopted_at_its_default() {
    let mut st = store_with(vec![entry("E", "keyword", "custom"), entry("E", "x", "user-set")]);
    let m = vec![manifest(
        "E",
        "orig",
        Some(vec![declared("x", "orig-default"), declared("y", "d")]),
    )];
    reconcile_settings(&mut st, &m);
    assert_eq!(value(&st, "E", "y"), Some(s("d")));
    assert_eq!(value(&st, "E", "x"), Some(s("user-set")));
    assert_eq!(value(&st, "E", "keyword"), Some(s("custom")));
}

#[test]
fn reconciling_twice_changes_nothing() {
    let mut st = store_with(vec![entry("E", "x", "user-set"), entry("Old", "k", "v")]);
    let m = vec![
        manifest("E", "e", Some(vec![declared("x", "a"), declared("y", "b")])),
        manifest("F", "f", None),
    ];
    reconcile_settings(&mut st, &m);
    let once = triples(&st.extensions);
    reconcile_settings(&mut st, &m);
    assert_eq!(triples(&st.extensions), once);
    assert_eq!(once.len(), 5);
}

#[test]
fn orphaned_entries_are_retained() {
    let mut st = store_with(vec![entry("gone", "keyword", "g"), entry("gone", "z", "1")]);
    let m = vec![manifest("E", "e", None)];
    reconcile_settings(&mut st, &m);
    assert_eq!(
        triples(&st.extensions),
        vec![
            (s("gone"), s("keyword"), s("g")),
            (s("gone"), s("z"), s("1")),
            (s("E"), s("keyword"), s("e")),
        ]
    );
}

#[test]
fn other_settings_fields_are_untouched() {
    let mut st = store_with(vec![]);
    st.results_count = 9;
    st.search_keyword = s("q");
    reconcile_settings(&mut st, &vec![manifest("E", "e", None)]);
    assert_eq!(st.results_count, 9);
    assert_eq!(st.search_keyword, "q");
}

#[test]
fn first_declaration_wins_for_duplicate_ids() {
    let mut v = vec![];
    let m = vec![
        manifest("E", "one", Some(vec![declared("x", "1"), declared("x", "2")])),
        manifest("E", "two", None),
    ];
    merge_extension_settings(&mut v, &m);
    assert_eq!(
        triples(&v),
        vec![(s("E"), s("keyword"), s("one")), (s("E"), s("x"), s("1"))]
    );
}

#[test]
fn declared_settings_lists_keyword_first() {
    let d = declared_settings(&manifest("E", "k", Some(vec![declared("a", "1")])));
    assert_eq!(triples(&d), vec![(s("E"), s("keyword"), s("k")), (s("E"), s("a"), s("1"))]);
}

#[test]
fn malformed_manifest_is_skipped() {
    let found = vec![None, Some(manifest("ok", "k", None))];
    let kept = collect_manifests(found);
    assert_eq!(kept.len(), 1);
    assert_eq!(kept[0].id, "ok");
}

#[test]
fn manifests_keep_scan_order() {
    let found = vec![Some(manifest("a", "k", None)), None, Some(manifest("b", "k", None)), None];
    let kept = collect_manifests(found);
    let ids: Vec<String> = kept.iter().map(|e| e.id.clone()).collect();
    assert_eq!(ids, vec![s("a"), s("b")]);
    assert!(collect_manifests(vec![None, None]).is_empty());
}

#[test]
fn missing_setting_lookup_is_none() {
    let st = store_with(vec![entry("E", "x", "1")]);
    assert_eq!(value(&st, "E", "y"), None);
    assert_eq!(value(&st, "F", "x"), None);
    assert_eq!(value(&st, "E", "x"), Some(s("1")));
}

#[test]
fn find_extension_picks_first_match() {
    let m = vec![manifest("a", "1", None), manifest("b", "2", None), manifest("b", "3", None)];
    assert_eq!(find_extension(&m, &s("b")), Some(1));
    assert_eq!(find_extension(&m, &s("c")), None);
}
