use vstd::prelude::*;
use crate::paths::{Platform, app_resources_icons_dir, path_join, get_app_resources_icons_dir};

verus! {

/// The persisted user settings. `scaling_bits` holds the bit pattern of the
/// IEEE-754 single-precision interface scale.
#[derive(Debug, Clone)]
pub struct Settings {
    pub first_key: String,
    pub second_key: Option<String>,
    pub third_key: String,
    pub scaling_bits: u32,
    pub auto_start: bool,
    pub show_recent_apps: bool,
    pub split_results: bool,
    pub show_search_icon: bool,
    pub show_settings_icon: bool,
    pub show_placeholder: bool,
    pub accent_search_border: bool,
    pub hide_on_blur: bool,
    pub border_radius: usize,
    pub border_width: usize,
    pub highlight_selected_background: bool,
    pub show_alt_hint: bool,
    pub results_count: usize,
    pub blacklist: Vec<String>,
    pub search_keyword: String,
    pub search_engines: Vec<SearchEngine>,
    pub default_search_engine: usize,
    pub theme: Theme,
    pub extensions: Vec<ExtensionSetting>,
}

#[derive(Debug, Clone)]
pub struct SearchEngine {
    pub id: usize,
    pub icon_path: Option<String>,
    pub tint_icon: bool,
    pub keyword: String,
    pub name: String,
    pub search_query: String,
}

#[derive(Debug, Clone)]
pub struct Theme {
    pub background: String,
    pub secondary: String,
    pub tertiary: String,
    pub accent: String,
    pub warning: String,
    pub danger: String,
    pub on_accent: String,
    pub on_danger: String,
    pub text: String,
    pub sub_text: String,
}

/// The current value of one setting of one extension. The keyword an
/// extension is invoked with is stored as its setting `keyword`.
#[derive(Debug, Clone)]
pub struct ExtensionSetting {
    pub extension_id: String,
    pub setting_id: String,
    pub setting_value: String,
}

/// Bit pattern of the scale 1.0.
pub const DEFAULT_SCALING_BITS: u32 = 0x3F80_0000;

pub open spec fn is_default_theme(t: Theme) -> bool {
    &&& t.background@ == "#0E0600"@
    &&& t.secondary@ == "#140800"@
    &&& t.tertiary@ == "#1B0B00"@
    &&& t.accent@ == "#FFE072"@
    &&& t.warning@ == "#FFB26C"@
    &&& t.danger@ == "#FF8C7C"@
    &&& t.on_accent@ == "#000000"@
    &&& t.on_danger@ == "#000000"@
    &&& t.text@ == "#FFEEE2"@
    &&& t.sub_text@ == "#E5D2C5"@
}

pub open spec fn is_engine(
    e: SearchEngine,
    id: usize,
    icon: Option<Seq<char>>,
    keyword: Seq<char>,
    name: Seq<char>,
    query: Seq<char>,
) -> bool {
    &&& e.id == id
    &&& match icon {
        Some(i) => e.icon_path is Some && e.icon_path->Some_0@ == i,
        None => e.icon_path is None,
    }
    &&& e.tint_icon == (icon is Some)
    &&& e.keyword@ == keyword
    &&& e.name@ == name
    &&& e.search_query@ == query
}

/// The four built-in search engines; the first three have an icon under
/// `icons`.
pub open spec fn is_default_search_engines(v: Seq<SearchEngine>, p: Platform) -> bool {
    let icons = app_resources_icons_dir(p);
    &&& v.len() == 4
    &&& is_engine(v[0], 0, Some(path_join(p, icons, "google.svg"@)), "gs"@, "Google"@,
        "https://www.google.com/search?q=%s"@)
    &&& is_engine(v[1], 1, Some(path_join(p, icons, "duckduckgo.svg"@)), "ds"@, "DuckDuckGo"@,
        "https://duckduckgo.com/?q=%s"@)
    &&& is_engine(v[2], 2, Some(path_join(p, icons, "brave.svg"@)), "bs"@, "Brave"@,
        "https://search.brave.com/search?q=%s"@)
    &&& is_engine(v[3], 3, None, "ss"@, "Startpage"@,
        "https://www.startpage.com/do/dsearch?q=%s"@)
}

/// The hard-coded settings used on first run and whenever the stored ones
/// cannot be read.
pub open spec fn is_default_settings(s: Settings, p: Platform) -> bool {
    &&& s.first_key@ == "ctrl"@
    &&& s.second_key is None
    &&& s.third_key@ == "space"@
    &&& s.scaling_bits == DEFAULT_SCALING_BITS
    &&& s.auto_start
    &&& s.show_recent_apps
    &&& !s.split_results
    &&& s.show_search_icon
    &&& s.show_settings_icon
    &&& s.show_placeholder
    &&& !s.accent_search_border
    &&& s.hide_on_blur
    &&& s.border_radius == 18
    &&& s.border_width == 1
    &&& s.highlight_selected_background
    &&& s.show_alt_hint
    &&& s.results_count == 6
    &&& s.blacklist@.len() == 0
    &&& s.search_keyword@ == "s"@
    &&& is_default_search_engines(s.search_engines@, p)
    &&& s.default_search_engine == 0
    &&& is_default_theme(s.theme)
    &&& s.extensions@.len() == 0
}

pub fn default_first_key() -> (r: String)
    ensures
        r@ == "ctrl"@,
{
    String::from_str("ctrl")
}

pub fn default_second_key() -> (r: Option<String>)
    ensures
        r is None,
{
    None
}

pub fn default_third_key() -> (r: String)
    ensures
        r@ == "space"@,
{
    String::from_str("space")
}

pub fn default_scaling_bits() -> (r: u32)
    ensures
        r == DEFAULT_SCALING_BITS,
{
    DEFAULT_SCALING_BITS
}

pub fn default_auto_start() -> (r: bool)
    ensures
        r,
{
    true
}

pub fn default_show_recent_apps() -> (r: bool)
    ensures
        r,
{
    true
}

pub fn default_split_results() -> (r: bool)
    ensures
        !r,
{
    false
}

pub fn default_show_search_icon() -> (r: bool)
    ensures
        r,
{
    true
}

pub fn default_show_settings_icon() -> (r: bool)
    ensures
        r,
{
    true
}

pub fn default_show_placeholder() -> (r: bool)
    ensures
        r,
{
    true
}

pub fn default_accent_search_border() -> (r: bool)
    ensures
        !r,
{
    false
}

pub fn default_hide_on_blur() -> (r: bool)
    ensures
        r,
{
    true
}

pub fn default_border_radius() -> (r: usize)
    ensures
        r == 18,
{
    18
}

pub fn default_border_width() -> (r: usize)
    ensures
        r == 1,
{
    1
}

pub fn default_highlight_selected_background() -> (r: bool)
    ensures
        r,
{
    true
}

pub fn default_show_alt_hint() -> (r: bool)
    ensures
        r,
{
    true
}

pub fn default_results_count() -> (r: usize)
    ensures
        r == 6,
{
    6
}

pub fn default_blacklist() -> (r: Vec<String>)
    ensures
        r@.len() == 0,
{
    Vec::new()
}

pub fn default_search_keyword() -> (r: String)
    ensures
        r@ == "s"@,
{
    String::from_str("s")
}

pub fn default_theme() -> (r: Theme)
    ensures
        is_default_theme(r),
{
    Theme {
        background: String::from_str("#0E0600"),
        secondary: String::from_str("#140800"),
        tertiary: String::from_str("#1B0B00"),
        accent: String::from_str("#FFE072"),
        warning: String::from_str("#FFB26C"),
        danger: String::from_str("#FF8C7C"),
        on_accent: String::from_str("#000000"),
        on_danger: String::from_str("#000000"),
        text: String::from_str("#FFEEE2"),
        sub_text: String::from_str("#E5D2C5"),
    }
}

fn icon_in(p: &Platform, icons: &String, file: &str) -> (r: String)
    ensures
        r@ == path_join(*p, icons@, file@),
{
    let mut r = icons.clone();
    if p.windows {
        r.append("\\");
    } else {
        r.append("/");
    }
    r.append(file);
    r
}

pub fn default_search_engines(p: &Platform) -> (r: Vec<SearchEngine>)
    requires
        p.well_formed(),
    ensures
        is_default_search_engines(r@, *p),
{
    let icons = get_app_resources_icons_dir(p);
    let mut v: Vec<SearchEngine> = Vec::new();
    v.push(SearchEngine {
        id: 0,
        icon_path: Some(icon_in(p, &icons, "google.svg")),
        tint_icon: true,
        keyword: String::from_str("gs"),
        name: String::from_str("Google"),
        search_query: String::from_str("https://www.google.com/search?q=%s"),
    });
    v.push(SearchEngine {
        id: 1,
        icon_path: Some(icon_in(p, &icons, "duckduckgo.svg")),
        tint_icon: true,
        keyword: String::from_str("ds"),
        name: String::from_str("DuckDuckGo"),
        search_query: String::from_str("https://duckduckgo.com/?q=%s"),
    });
    v.push(SearchEngine {
        id: 2,
        icon_path: Some(icon_in(p, &icons, "brave.svg")),
        tint_icon: true,
        keyword: String::from_str("bs"),
        name: String::from_str("Brave"),
        search_query: String::from_str("https://search.brave.com/search?q=%s"),
    });
    v.push(SearchEngine {
        id: 3,
        icon_path: None,
        tint_icon: false,
        keyword: String::from_str("ss"),
        name: String::from_str("Startpage"),
        search_query: String::from_str("https://www.startpage.com/do/dsearch?q=%s"),
    });
    v
}

pub fn default_default_search_engine() -> (r: usize)
    ensures
        r == 0,
{
    0
}

pub fn default_extensions() -> (r: Vec<ExtensionSetting>)
    ensures
        r@.len() == 0,
{
    Vec::new()
}

pub fn get_default_settings(p: &Platform) -> (r: Settings)
    requires
        p.well_formed(),
    ensures
        is_default_settings(r, *p),
{
    Settings {
        first_key: default_first_key(),
        second_key: default_second_key(),
        third_key: default_third_key(),
        scaling_bits: default_scaling_bits(),
        auto_start: default_auto_start(),
        show_recent_apps: default_show_recent_apps(),
        split_results: default_split_results(),
        show_search_icon: default_show_search_icon(),
        show_settings_icon: default_show_settings_icon(),
        show_placeholder: default_show_placeholder(),
        accent_search_border: default_accent_search_border(),
        hide_on_blur: default_hide_on_blur(),
        border_radius: default_border_radius(),
        border_width: default_border_width(),
        highlight_selected_background: default_highlight_selected_background(),
        show_alt_hint: default_show_alt_hint(),
        results_count: default_results_count(),
        blacklist: default_blacklist(),
        search_keyword: default_search_keyword(),
        search_engines: default_search_engines(p),
        default_search_engine: default_default_search_engine(),
        theme: default_theme(),
        extensions: default_extensions(),
    }
}

} // verus!
