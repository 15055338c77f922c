use vstd::prelude::*;

verus! {

/// A manifest bundled with an extension: its identity, default invocation
/// keyword and the settings it declares.
#[derive(Debug, Clone)]
pub struct Extension {
    pub id: String,
    pub name: String,
    pub description: String,
    pub keyword: String,
    pub settings: Option<Vec<ExtensionSetting>>,
    pub os: String,
}

/// One setting declared by a manifest.
#[derive(Debug, Clone)]
pub struct ExtensionSetting {
    pub id: String,
    pub title: String,
    pub description: String,
    pub setting_type: SettingType,
    pub default_value: String,
    pub show_conditions: Option<Vec<ShowCondition>>,
    pub select_options: Option<Vec<SelectOption>>,
    pub os: String,
}

#[derive(Debug, Clone, Copy, PartialEq, Eq, Structural)]
pub enum SettingType {
    Input,
    TextArea,
    Select,
    Toggle,
}

/// A setting is shown only while another setting holds the given value.
#[derive(Debug, Clone)]
pub struct ShowCondition {
    pub setting_id: String,
    pub setting_value: String,
}

#[derive(Debug, Clone)]
pub struct SelectOption {
    pub id: String,
    pub value: String,
}

/// The settings of a manifest that declares none.
pub fn default_settings() -> (r: Option<Vec<ExtensionSetting>>)
    ensures
        r is None,
{
    None
}

/// The OS filter that applies everywhere.
pub fn default_os() -> (r: String)
    ensures
        r@ == "*"@,
{
    String::from_str("*")
}

pub fn default_show_conditions() -> (r: Option<Vec<ShowCondition>>)
    ensures
        r is None,
{
    None
}

pub fn default_select_options() -> (r: Option<Vec<SelectOption>>)
    ensures
        r is None,
{
    None
}

} // verus!
