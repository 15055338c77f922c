use vstd::prelude::*;

verus! {

/// What selecting a result does. `action_type` names the one payload that is
/// set.
#[derive(Debug, Clone)]
pub struct Action {
    pub action_type: ActionType,
    pub open_app: Option<OpenAppAction>,
    pub open_url: Option<OpenURLAction>,
    pub copy: Option<CopyAction>,
    pub extension: Option<ExtensionAction>,
    pub dialog: Option<DialogAction>,
    pub ignore: bool,
    pub ask_confirmation: bool,
}

impl Action {
    /// The payload set matches `action_type`, and no other is set.
    pub open spec fn well_formed(&self) -> bool {
        &&& (self.open_app is Some <==> self.action_type == ActionType::OpenApp)
        &&& (self.open_url is Some <==> self.action_type == ActionType::OpenURL)
        &&& (self.copy is Some <==> self.action_type == ActionType::Copy)
        &&& (self.extension is Some <==> self.action_type == ActionType::Extension)
        &&& (self.dialog is Some <==> self.action_type == ActionType::Dialog)
        &&& (self.ignore <==> self.action_type == ActionType::Ignore)
    }

    pub fn new_open_app(action: OpenAppAction) -> (r: Self)
        ensures
            r.well_formed(),
            r.action_type == ActionType::OpenApp,
            r.open_app == Some(action),
            !r.ask_confirmation,
    {
        Self {
            action_type: ActionType::OpenApp,
            open_app: Some(action),
            open_url: None,
            copy: None,
            extension: None,
            dialog: None,
            ignore: false,
            ask_confirmation: false,
        }
    }

    pub fn new_open_url(action: OpenURLAction) -> (r: Self)
        ensures
            r.well_formed(),
            r.action_type == ActionType::OpenURL,
            r.open_url == Some(action),
            !r.ask_confirmation,
    {
        Self {
            action_type: ActionType::OpenURL,
            open_app: None,
            open_url: Some(action),
            copy: None,
            extension: None,
            dialog: None,
            ignore: false,
            ask_confirmation: false,
        }
    }

    pub fn new_copy(action: CopyAction) -> (r: Self)
        ensures
            r.well_formed(),
            r.action_type == ActionType::Copy,
            r.copy == Some(action),
            !r.ask_confirmation,
    {
        Self {
            action_type: ActionType::Copy,
            open_app: None,
            open_url: None,
            copy: Some(action),
            extension: None,
            dialog: None,
            ignore: false,
            ask_confirmation: false,
        }
    }

    pub fn new_extension(action: ExtensionAction) -> (r: Self)
        ensures
            r.well_formed(),
            r.action_type == ActionType::Extension,
            r.extension == Some(action),
            !r.ask_confirmation,
    {
        Self {
            action_type: ActionType::Extension,
            open_app: None,
            open_url: None,
            copy: None,
            extension: Some(action),
            dialog: None,
            ignore: false,
            ask_confirmation: false,
        }
    }

    pub fn new_dialog(action: DialogAction) -> (r: Self)
        ensures
            r.well_formed(),
            r.action_type == ActionType::Dialog,
            r.dialog == Some(action),
            !r.ask_confirmation,
    {
        Self {
            action_type: ActionType::Dialog,
            open_app: None,
            open_url: None,
            copy: None,
            extension: None,
            dialog: Some(action),
            ignore: false,
            ask_confirmation: false,
        }
    }

    pub fn new_ignore() -> (r: Self)
        ensures
            r.well_formed(),
            r.action_type == ActionType::Ignore,
            !r.ask_confirmation,
    {
        Self {
            action_type: ActionType::Ignore,
            open_app: None,
            open_url: None,
            copy: None,
            extension: None,
            dialog: None,
            ignore: true,
            ask_confirmation: false,
        }
    }

    pub fn ask_confirmation(self, ask_confirmation: bool) -> (r: Self)
        ensures
            r == (Self { ask_confirmation, ..self }),
    {
        Self { ask_confirmation, ..self }
    }
}

#[derive(Debug, Clone, Copy, PartialEq, Eq, Structural)]
pub enum ActionType {
    OpenApp,
    OpenURL,
    Copy,
    Extension,
    Dialog,
    Ignore,
}

#[derive(Debug, Clone)]
pub struct OpenAppAction {
    pub id: String,
}

impl OpenAppAction {
    pub fn new(id: String) -> (r: Self)
        ensures
            r.id == id,
    {
        Self { id }
    }
}

#[derive(Debug, Clone)]
pub struct OpenURLAction {
    pub url: String,
}

impl OpenURLAction {
    pub fn new(url: String) -> (r: Self)
        ensures
            r.url == url,
    {
        Self { url }
    }
}

#[derive(Debug, Clone)]
pub struct CopyAction {
    pub text: String,
}

impl CopyAction {
    pub fn new(text: String) -> (r: Self)
        ensures
            r.text == text,
    {
        Self { text }
    }
}

#[derive(Debug, Clone)]
pub struct ExtensionAction {
    pub extension_id: String,
    pub action: String,
    pub args: Option<Vec<String>>,
}

impl ExtensionAction {
    pub fn new(extension_id: String, action: String) -> (r: Self)
        ensures
            r == (Self { extension_id, action, args: None }),
    {
        Self { extension_id, action, args: None }
    }

    pub fn args(self, args: Vec<String>) -> (r: Self)
        ensures
            r == (Self { args: Some(args), ..self }),
    {
        Self { args: Some(args), ..self }
    }
}

#[derive(Debug, Clone)]
pub struct DialogAction {
    pub extension_id: String,
    pub action: String,
    pub title: String,
    pub action_text: String,
    pub fields: Vec<Field>,
    pub args: Option<Vec<String>>,
}

impl DialogAction {
    pub fn new(
        extension_id: String,
        action: String,
        title: String,
        action_text: String,
        fields: Vec<Field>,
    ) -> (r: Self)
        ensures
            r == (Self { extension_id, action, title, action_text, fields, args: None }),
    {
        Self { extension_id, action, title, action_text, fields, args: None }
    }

    pub fn args(self, args: Vec<String>) -> (r: Self)
        ensures
            r == (Self { args: Some(args), ..self }),
    {
        Self { args: Some(args), ..self }
    }
}

/// One field of a dialog. `field_type` names the one descriptor that is set.
#[derive(Debug, Clone)]
pub struct Field {
    pub id: String,
    pub field_type: FieldType,
    pub input_field: Option<InputField>,
    pub text_area_field: Option<TextAreaField>,
    pub toggle_field: Option<ToggleField>,
    pub select_field: Option<SelectField>,
    pub file_picker_field: Option<FilePickerField>,
    pub args: Option<Vec<String>>,
}

impl Field {
    /// The descriptor set matches `field_type`, and no other is set.
    pub open spec fn well_formed(&self) -> bool {
        &&& (self.input_field is Some <==> self.field_type == FieldType::Input)
        &&& (self.text_area_field is Some <==> self.field_type == FieldType::TextArea)
        &&& (self.toggle_field is Some <==> self.field_type == FieldType::Toggle)
        &&& (self.select_field is Some <==> self.field_type == FieldType::Select)
        &&& (self.file_picker_field is Some <==> self.field_type == FieldType::FilePicker)
    }

    pub fn new_input(id: String, field: InputField) -> (r: Self)
        ensures
            r.well_formed(),
            r.id == id,
            r.field_type == FieldType::Input,
            r.input_field == Some(field),
            r.args is None,
    {
        Self {
            id,
            field_type: FieldType::Input,
            input_field: Some(field),
            text_area_field: None,
            toggle_field: None,
            select_field: None,
            file_picker_field: None,
            args: None,
        }
    }

    pub fn new_text_area(id: String, field: TextAreaField) -> (r: Self)
        ensures
            r.well_formed(),
            r.id == id,
            r.field_type == FieldType::TextArea,
            r.text_area_field == Some(field),
            r.args is None,
    {
        Self {
            id,
            field_type: FieldType::TextArea,
            input_field: None,
            text_area_field: Some(field),
            toggle_field: None,
            select_field: None,
            file_picker_field: None,
            args: None,
        }
    }

    pub fn new_toggle(id: String, field: ToggleField) -> (r: Self)
        ensures
            r.well_formed(),
            r.id == id,
            r.field_type == FieldType::Toggle,
            r.toggle_field == Some(field),
            r.args is None,
    {
        Self {
            id,
            field_type: FieldType::Toggle,
            input_field: None,
            text_area_field: None,
            toggle_field: Some(field),
            select_field: None,
            file_picker_field: None,
            args: None,
        }
    }

    pub fn new_select(id: String, field: SelectField) -> (r: Self)
        ensures
            r.well_formed(),
            r.id == id,
            r.field_type == FieldType::Select,
            r.select_field == Some(field),
            r.args is None,
    {
        Self {
            id,
            field_type: FieldType::Select,
            input_field: None,
            text_area_field: None,
            toggle_field: None,
            select_field: Some(field),
            file_picker_field: None,
            args: None,
        }
    }

    pub fn new_file_picker(id: String, field: FilePickerField) -> (r: Self)
        ensures
            r.well_formed(),
            r.id == id,
            r.field_type == FieldType::FilePicker,
            r.file_picker_field == Some(field),
            r.args is None,
    {
        Self {
            id,
            field_type: FieldType::FilePicker,
            input_field: None,
            text_area_field: None,
            toggle_field: None,
            select_field: None,
            file_picker_field: Some(field),
            args: None,
        }
    }

    pub fn args(self, args: Vec<String>) -> (r: Self)
        ensures
            r == (Self { args: Some(args), ..self }),
    {
        Self { args: Some(args), ..self }
    }
}

#[derive(Debug, Clone, Copy, PartialEq, Eq, Structural)]
pub enum FieldType {
    Input,
    TextArea,
    Toggle,
    Select,
    FilePicker,
}

#[derive(Debug, Clone)]
pub struct InputField {
    pub default_value: String,
    pub title: String,
    pub description: String,
    pub placeholder: String,
}

impl InputField {
    pub fn new(default_value: String, title: String, description: String) -> (r: Self)
        ensures
            r.default_value == default_value,
            r.title == title,
            r.description == description,
            r.placeholder@.len() == 0,
    {
        Self { default_value, title, description, placeholder: String::new() }
    }

    pub fn placeholder(self, placeholder: String) -> (r: Self)
        ensures
            r == (Self { placeholder, ..self }),
    {
        Self { placeholder, ..self }
    }
}

#[derive(Debug, Clone)]
pub struct TextAreaField {
    pub default_value: String,
    pub title: String,
    pub description: String,
    pub placeholder: String,
}

impl TextAreaField {
    pub fn new(default_value: String, title: String, description: String) -> (r: Self)
        ensures
            r.default_value == default_value,
            r.title == title,
            r.description == description,
            r.placeholder@.len() == 0,
    {
        Self { default_value, title, description, placeholder: String::new() }
    }

    pub fn placeholder(self, placeholder: String) -> (r: Self)
        ensures
            r == (Self { placeholder, ..self }),
    {
        Self { placeholder, ..self }
    }
}

#[derive(Debug, Clone)]
pub struct ToggleField {
    pub default_value: bool,
    pub title: String,
    pub description: String,
}

impl ToggleField {
    pub fn new(default_value: bool, title: String, description: String) -> (r: Self)
        ensures
            r == (Self { default_value, title, description }),
    {
        Self { default_value, title, description }
    }
}

#[derive(Debug, Clone)]
pub struct SelectField {
    pub default_value: String,
    pub title: String,
    pub description: String,
    pub options: Vec<SelectOption>,
}

impl SelectField {
    pub fn new(default_value: String, title: String, description: String, options: Vec<SelectOption>) -> (r: Self)
        ensures
            r == (Self { default_value, title, description, options }),
    {
        Self { default_value, title, description, options }
    }
}

#[derive(Debug, Clone)]
pub struct SelectOption {
    pub id: String,
    pub value: String,
}

impl SelectOption {
    pub fn new(id: String, value: String) -> (r: Self)
        ensures
            r == (Self { id, value }),
    {
        Self { id, value }
    }
}

#[derive(Debug, Clone)]
pub struct FilePickerField {
    pub title: String,
    pub description: String,
    pub default_path: Option<String>,
    pub filters: Option<Vec<FileFilter>>,
    pub pick_directory: bool,
}

impl FilePickerField {
    pub fn new(title: String, description: String) -> (r: Self)
        ensures
            r == (Self { title, description, default_path: None, filters: None, pick_directory: false }),
    {
        Self { title, description, default_path: None, filters: None, pick_directory: false }
    }

    pub fn default_path(self, default_path: String) -> (r: Self)
        ensures
            r == (Self { default_path: Some(default_path), ..self }),
    {
        Self { default_path: Some(default_path), ..self }
    }

    pub fn filters(self, filters: Vec<FileFilter>) -> (r: Self)
        ensures
            r == (Self { filters: Some(filters), ..self }),
    {
        Self { filters: Some(filters), ..self }
    }

    pub fn pick_directory(self, pick_directory: bool) -> (r: Self)
        ensures
            r == (Self { pick_directory, ..self }),
    {
        Self { pick_directory, ..self }
    }
}

#[derive(Debug, Clone)]
pub struct FileFilter {
    pub name: String,
    pub extensions: Vec<String>,
}

impl FileFilter {
    pub fn new(name: String, extensions: Vec<String>) -> (r: Self)
        ensures
            r == (Self { name, extensions }),
    {
        Self { name, extensions }
    }
}

} // verus!
