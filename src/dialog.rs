use vstd::prelude::*;

verus! {

/// One field of a dialog that an extension asks the launcher to show.
#[derive(Debug, Clone)]
pub enum DialogField {
    Input(Input),
    Toggle(Toggle),
    Select(Select),
    TextArea(TextArea),
    SelectFile(SelectFile),
}

#[derive(Debug, Clone)]
pub struct Input {
    pub id: String,
    pub value: String,
    pub title: String,
    pub description: Option<String>,
    pub placeholder: Option<String>,
    pub custom_args: Option<Vec<String>>,
}

impl Input {
    pub fn new(id: String, title: String, value: String) -> (r: Self)
        ensures
            r == (Self { id, value, title, description: None, placeholder: None, custom_args: None }),
    {
        Self { id, value, title, description: None, placeholder: None, custom_args: None }
    }

    pub fn description(self, description: String) -> (r: Self)
        ensures
            r == (Self { description: Some(description), ..self }),
    {
        Self { description: Some(description), ..self }
    }

    pub fn placeholder(self, placeholder: String) -> (r: Self)
        ensures
            r == (Self { placeholder: Some(placeholder), ..self }),
    {
        Self { placeholder: Some(placeholder), ..self }
    }

    pub fn custom_args(self, custom_args: Vec<String>) -> (r: Self)
        ensures
            r == (Self { custom_args: Some(custom_args), ..self }),
    {
        Self { custom_args: Some(custom_args), ..self }
    }
}

#[derive(Debug, Clone)]
pub struct Toggle {
    pub id: String,
    pub toggled: bool,
    pub title: String,
    pub description: Option<String>,
    pub custom_args: Option<Vec<String>>,
}

impl Toggle {
    pub fn new(id: String, title: String, toggled: bool) -> (r: Self)
        ensures
            r == (Self { id, toggled, title, description: None, custom_args: None }),
    {
        Self { id, toggled, title, description: None, custom_args: None }
    }

    pub fn description(self, description: String) -> (r: Self)
        ensures
            r == (Self { description: Some(description), ..self }),
    {
        Self { description: Some(description), ..self }
    }

    pub fn custom_args(self, custom_args: Vec<String>) -> (r: Self)
        ensures
            r == (Self { custom_args: Some(custom_args), ..self }),
    {
        Self { custom_args: Some(custom_args), ..self }
    }
}

#[derive(Debug, Clone)]
pub struct Select {
    pub id: String,
    pub default_field_id: String,
    pub title: String,
    pub description: Option<String>,
    pub fields: Vec<SelectField>,
    pub custom_args: Option<Vec<String>>,
}

impl Select {
    pub fn new(id: String, title: String, default_field_id: String, fields: Vec<SelectField>) -> (r: Self)
        ensures
            r == (Self { id, default_field_id, title, description: None, fields, custom_args: None }),
    {
        Self { id, default_field_id, title, description: None, fields, custom_args: None }
    }

    pub fn description(self, description: String) -> (r: Self)
        ensures
            r == (Self { description: Some(description), ..self }),
    {
        Self { description: Some(description), ..self }
    }

    pub fn custom_args(self, custom_args: Vec<String>) -> (r: Self)
        ensures
            r == (Self { custom_args: Some(custom_args), ..self }),
    {
        Self { custom_args: Some(custom_args), ..self }
    }
}

#[derive(Debug, Clone)]
pub struct SelectField {
    pub id: String,
    pub text: String,
}

impl SelectField {
    pub fn new(id: String, text: String) -> (r: Self)
        ensures
            r == (Self { id, text }),
    {
        Self { id, text }
    }
}

#[derive(Debug, Clone)]
pub struct TextArea {
    pub id: String,
    pub value: String,
    pub title: String,
    pub description: Option<String>,
    pub placeholder: Option<String>,
    pub custom_args: Option<Vec<String>>,
}

impl TextArea {
    pub fn new(id: String, title: String, value: String) -> (r: Self)
        ensures
            r == (Self { id, value, title, description: None, placeholder: None, custom_args: None }),
    {
        Self { id, value, title, description: None, placeholder: None, custom_args: None }
    }

    pub fn description(self, description: String) -> (r: Self)
        ensures
            r == (Self { description: Some(description), ..self }),
    {
        Self { description: Some(description), ..self }
    }

    pub fn placeholder(self, placeholder: String) -> (r: Self)
        ensures
            r == (Self { placeholder: Some(placeholder), ..self }),
    {
        Self { placeholder: Some(placeholder), ..self }
    }

    pub fn custom_args(self, custom_args: Vec<String>) -> (r: Self)
        ensures
            r == (Self { custom_args: Some(custom_args), ..self }),
    {
        Self { custom_args: Some(custom_args), ..self }
    }
}

#[derive(Debug, Clone)]
pub struct SelectFile {
    pub id: String,
    pub value: String,
    pub title: String,
    pub description: Option<String>,
    pub select_dir: bool,
    pub default_path: Option<String>,
    pub filters: Vec<FileFilter>,
    pub custom_args: Option<Vec<String>>,
}

impl SelectFile {
    pub fn new(id: String, title: String) -> (r: Self)
        ensures
            r.id == id,
            r.value@.len() == 0,
            r.title == title,
            r.description is None,
            !r.select_dir,
            r.default_path is None,
            r.filters@.len() == 0,
            r.custom_args is None,
    {
        Self {
            id,
            value: String::new(),
            title,
            description: None,
            select_dir: false,
            default_path: None,
            filters: Vec::new(),
            custom_args: None,
        }
    }

    pub fn description(self, description: String) -> (r: Self)
        ensures
            r == (Self { description: Some(description), ..self }),
    {
        Self { description: Some(description), ..self }
    }

    pub fn select_dir(self, select_dir: bool) -> (r: Self)
        ensures
            r == (Self { select_dir, ..self }),
    {
        Self { select_dir, ..self }
    }

    pub fn default_path(self, default_path: String) -> (r: Self)
        ensures
            r == (Self { default_path: Some(default_path), ..self }),
    {
        Self { default_path: Some(default_path), ..self }
    }

    pub fn filters(self, filters: Vec<FileFilter>) -> (r: Self)
        ensures
            r == (Self { filters, ..self }),
    {
        Self { filters, ..self }
    }

    pub fn custom_args(self, custom_args: Vec<String>) -> (r: Self)
        ensures
            r == (Self { custom_args: Some(custom_args), ..self }),
    {
        Self { custom_args: Some(custom_args), ..self }
    }
}

/// A named group of file extensions a file picker offers.
#[derive(Debug, Clone)]
pub struct FileFilter {
    pub name: String,
    pub file_extensions: Vec<String>,
}

impl FileFilter {
    pub fn new(name: String) -> (r: Self)
        ensures
            r.name == name,
            r.file_extensions@.len() == 0,
    {
        Self { name, file_extensions: Vec::new() }
    }

    pub fn add_extension(self, extension: String) -> (r: Self)
        ensures
            r.name == self.name,
            r.file_extensions@ == self.file_extensions@.push(extension),
    {
        let mut s = self;
        s.file_extensions.push(extension);
        s
    }
}

} // verus!
