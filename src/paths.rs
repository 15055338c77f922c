use vstd::prelude::*;

verus! {

/// What the launcher's locations are computed from: the running OS and the
/// directories that the environment provides.
#[derive(Debug, Clone)]
pub struct Platform {
    pub windows: bool,
    pub home_dir: String,
    pub app_data: Option<String>,
    pub temp_dir: Option<String>,
}

impl Platform {
    /// On Windows the `APPDATA` and `TEMP` directories must be known.
    pub open spec fn well_formed(&self) -> bool {
        self.windows ==> (self.app_data is Some && self.temp_dir is Some)
    }
}

pub open spec fn separator(p: Platform) -> Seq<char> {
    if p.windows {
        "\\"@
    } else {
        "/"@
    }
}

/// `part` appended to `base` as one more path component.
pub open spec fn path_join(p: Platform, base: Seq<char>, part: Seq<char>) -> Seq<char> {
    base + separator(p) + part
}

pub open spec fn app_dir(p: Platform) -> Seq<char> {
    if p.windows {
        path_join(p, p.app_data->Some_0@, "com-whiskersapps-launcher"@)
    } else {
        path_join(p, p.home_dir@, ".local/share/com-whiskersapps-launcher"@)
    }
}

pub open spec fn indexing_dir(p: Platform) -> Seq<char> {
    if p.windows {
        path_join(p, p.home_dir@, ".whiskers-launcher/indexing"@)
    } else {
        path_join(p, p.home_dir@, ".cache/whiskers-launcher-indexing"@)
    }
}

pub open spec fn api_dir(p: Platform) -> Seq<char> {
    if p.windows {
        path_join(p, p.temp_dir->Some_0@, "whiskers-launcher-api"@)
    } else {
        "/tmp/whiskers-launcher-api"@
    }
}

pub open spec fn app_resources_icons_dir(p: Platform) -> Seq<char> {
    path_join(p, path_join(p, app_dir(p), "resources"@), "icons"@)
}

fn join(p: &Platform, base: String, part: &str) -> (r: String)
    ensures
        r@ == path_join(*p, base@, part@),
{
    let mut r = base;
    if p.windows {
        r.append("\\");
    } else {
        r.append("/");
    }
    r.append(part);
    r
}

pub fn get_app_dir(p: &Platform) -> (r: String)
    requires
        p.well_formed(),
    ensures
        r@ == app_dir(*p),
{
    if p.windows {
        let base = match &p.app_data {
            Some(d) => d.clone(),
            None => String::new(),
        };
        join(p, base, "com-whiskersapps-launcher")
    } else {
        join(p, p.home_dir.clone(), ".local/share/com-whiskersapps-launcher")
    }
}

pub fn get_app_resources_dir(p: &Platform) -> (r: String)
    requires
        p.well_formed(),
    ensures
        r@ == path_join(*p, app_dir(*p), "resources"@),
{
    join(p, get_app_dir(p), "resources")
}

pub fn get_app_resources_icons_dir(p: &Platform) -> (r: String)
    requires
        p.well_formed(),
    ensures
        r@ == app_resources_icons_dir(*p),
{
    join(p, get_app_resources_dir(p), "icons")
}

pub fn get_indexing_dir(p: &Platform) -> (r: String)
    ensures
        r@ == indexing_dir(*p),
{
    if p.windows {
        join(p, p.home_dir.clone(), ".whiskers-launcher/indexing")
    } else {
        join(p, p.home_dir.clone(), ".cache/whiskers-launcher-indexing")
    }
}

pub fn get_indexing_shortcuts_dir(p: &Platform) -> (r: String)
    ensures
        r@ == path_join(*p, indexing_dir(*p), "shortcuts"@),
{
    join(p, get_indexing_dir(p), "shortcuts")
}

pub fn get_indexing_icons_dir(p: &Platform) -> (r: String)
    ensures
        r@ == path_join(*p, indexing_dir(*p), "icons"@),
{
    join(p, get_indexing_dir(p), "icons")
}

pub fn get_indexing_shortcuts_path(p: &Platform) -> (r: String)
    ensures
        r@ == path_join(*p, indexing_dir(*p), "shortcuts.bin"@),
{
    join(p, get_indexing_dir(p), "shortcuts.bin")
}

pub fn get_indexing_extensions_path(p: &Platform) -> (r: String)
    ensures
        r@ == path_join(*p, indexing_dir(*p), "extensions.bin"@),
{
    join(p, get_indexing_dir(p), "extensions.bin")
}

pub fn get_indexing_apps_path(p: &Platform) -> (r: String)
    ensures
        r@ == path_join(*p, indexing_dir(*p), "apps.bin"@),
{
    join(p, get_indexing_dir(p), "apps.bin")
}

pub fn get_api_dir(p: &Platform) -> (r: String)
    requires
        p.well_formed(),
    ensures
        r@ == api_dir(*p),
{
    if p.windows {
        let base = match &p.temp_dir {
            Some(d) => d.clone(),
            None => String::new(),
        };
        join(p, base, "whiskers-launcher-api")
    } else {
        String::from_str("/tmp/whiskers-launcher-api")
    }
}

pub fn get_home_dir(p: &Platform) -> (r: String)
    ensures
        r@ == p.home_dir@,
{
    p.home_dir.clone()
}

pub fn get_extension_response_path(p: &Platform) -> (r: String)
    requires
        p.well_formed(),
    ensures
        r@ == path_join(*p, api_dir(*p), "extension-response.bin"@),
{
    join(p, get_api_dir(p), "extension-response.bin")
}

pub fn get_extension_request_path(p: &Platform) -> (r: String)
    requires
        p.well_formed(),
    ensures
        r@ == path_join(*p, api_dir(*p), "extension-request.bin"@),
{
    join(p, get_api_dir(p), "extension-request.bin")
}

pub fn get_dialog_response_path(p: &Platform) -> (r: String)
    requires
        p.well_formed(),
    ensures
        r@ == path_join(*p, api_dir(*p), "dialog-response.bin"@),
{
    join(p, get_api_dir(p), "dialog-response.bin")
}

pub fn get_dialog_request_path(p: &Platform) -> (r: String)
    requires
        p.well_formed(),
    ensures
        r@ == path_join(*p, api_dir(*p), "dialog-request.bin"@),
{
    join(p, get_api_dir(p), "dialog-request.bin")
}

pub fn get_extensions_dir(p: &Platform) -> (r: String)
    requires
        p.well_formed(),
    ensures
        r@ == path_join(*p, app_dir(*p), "extensions"@),
{
    join(p, get_app_dir(p), "extensions")
}

pub fn get_settings_path(p: &Platform) -> (r: String)
    requires
        p.well_formed(),
    ensures
        r@ == (if p.windows {
            path_join(*p, app_dir(*p), "settings.bin"@)
        } else {
            path_join(*p, p.home_dir@, ".config/whiskers-launcher/settings.bin"@)
        }),
{
    if p.windows {
        join(p, get_app_dir(p), "settings.bin")
    } else {
        join(p, p.home_dir.clone(), ".config/whiskers-launcher/settings.bin")
    }
}

pub fn get_autostart_dir(p: &Platform) -> (r: String)
    requires
        p.well_formed(),
    ensures
        r@ == (if p.windows {
            path_join(*p, p.app_data->Some_0@, "Microsoft\\Windows\\Start Menu\\Programs\\Startup"@)
        } else {
            path_join(*p, p.home_dir@, ".config/autostart"@)
        }),
{
    if p.windows {
        let base = match &p.app_data {
            Some(d) => d.clone(),
            None => String::new(),
        };
        join(p, base, "Microsoft\\Windows\\Start Menu\\Programs\\Startup")
    } else {
        join(p, p.home_dir.clone(), ".config/autostart")
    }
}

pub fn get_stores_dir(p: &Platform) -> (r: String)
    requires
        p.well_formed(),
    ensures
        r@ == path_join(*p, app_dir(*p), "stores"@),
{
    join(p, get_app_dir(p), "stores")
}

pub fn get_extensions_store_path(p: &Platform) -> (r: String)
    requires
        p.well_formed(),
    ensures
        r@ == path_join(*p, path_join(*p, app_dir(*p), "stores"@), "extensions.json"@),
{
    join(p, get_stores_dir(p), "extensions.json")
}

pub fn get_themes_store_path(p: &Platform) -> (r: String)
    requires
        p.well_formed(),
    ensures
        r@ == path_join(*p, path_join(*p, app_dir(*p), "stores"@), "themes.json"@),
{
    join(p, get_stores_dir(p), "themes.json")
}

pub fn get_recent_apps_path(p: &Platform) -> (r: String)
    requires
        p.well_formed(),
    ensures
        r@ == path_join(*p, app_dir(*p), "recent-apps.bin"@),
{
    join(p, get_app_dir(p), "recent-apps.bin")
}

} // verus!
