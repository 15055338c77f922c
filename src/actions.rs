use vstd::prelude::*;
use crate::dialog::DialogField;

verus! {

/// What selecting a result does.
#[derive(Debug, Clone)]
pub enum Action {
    OpenApp(OpenApp),
    OpenUrl(OpenUrl),
    CopyToClipboard(CopyToClipboard),
    Extension(Extension),
    Dialog(Dialog),
    Nothing,
}

#[derive(Debug, Clone)]
pub struct OpenApp {
    pub path: String,
}

impl OpenApp {
    pub fn new(path: String) -> (r: Self)
        ensures
            r.path == path,
    {
        Self { path }
    }
}

#[derive(Debug, Clone)]
pub struct OpenUrl {
    pub url: String,
}

impl OpenUrl {
    pub fn new(url: String) -> (r: Self)
        ensures
            r.url == url,
    {
        Self { url }
    }
}

#[derive(Debug, Clone)]
pub struct CopyToClipboard {
    pub text: String,
}

impl CopyToClipboard {
    pub fn new(text: String) -> (r: Self)
        ensures
            r.text == text,
    {
        Self { text }
    }
}

#[derive(Debug, Clone)]
pub struct Extension {
    pub extension_id: String,
    pub extension_action: String,
    pub args: Option<Vec<String>>,
}

impl Extension {
    pub fn new(extension_id: String, extension_action: String) -> (r: Self)
        ensures
            r == (Self { extension_id, extension_action, args: None }),
    {
        Self { extension_id, extension_action, args: None }
    }

    pub fn args(self, args: Vec<String>) -> (r: Self)
        ensures
            r == (Self { args: Some(args), ..self }),
    {
        Self { args: Some(args), ..self }
    }
}

#[derive(Debug, Clone)]
pub struct Dialog {
    pub extension_id: String,
    pub extension_action: String,
    pub title: String,
    pub primary_button_text: Option<String>,
    pub fields: Vec<DialogField>,
    pub args: Option<Vec<String>>,
}

impl Dialog {
    pub fn new(extension_id: String, title: String, extension_action: String, fields: Vec<DialogField>) -> (r: Self)
        ensures
            r == (Self {
                extension_id,
                extension_action,
                title,
                primary_button_text: None,
                fields,
                args: None,
            }),
    {
        Self { extension_id, extension_action, title, primary_button_text: None, fields, args: None }
    }

    pub fn primary_button_text(self, primary_button_text: String) -> (r: Self)
        ensures
            r == (Self { primary_button_text: Some(primary_button_text), ..self }),
    {
        Self { primary_button_text: Some(primary_button_text), ..self }
    }

    pub fn args(self, args: Vec<String>) -> (r: Self)
        ensures
            r == (Self { args: Some(args), ..self }),
    {
        Self { args: Some(args), ..self }
    }
}

} // verus!
