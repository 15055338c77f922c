use vstd::prelude::*;
use crate::actions::Action;

verus! {

/// A displayed result entry.
#[derive(Debug, Clone)]
pub enum WhiskersResult {
    Text(Text),
    TitleAndText(TitleAndText),
    Divider,
}

#[derive(Debug, Clone)]
pub struct Text {
    pub icon: Option<String>,
    pub tint_icon: bool,
    pub tint_color: Option<String>,
    pub text: String,
    pub action: Action,
}

impl Text {
    pub fn new(text: String, action: Action) -> (r: Self)
        ensures
            r == (Self { icon: None, tint_icon: false, tint_color: None, text, action }),
    {
        Self { icon: None, tint_icon: false, tint_color: None, text, action }
    }

    pub fn icon(self, icon_path: String) -> (r: Self)
        ensures
            r == (Self { icon: Some(icon_path), ..self }),
    {
        Self { icon: Some(icon_path), ..self }
    }

    pub fn tint_icon(self, tint_icon: bool) -> (r: Self)
        ensures
            r == (Self { tint_icon, ..self }),
    {
        Self { tint_icon, ..self }
    }

    pub fn tint_color(self, tint_color: String) -> (r: Self)
        ensures
            r == (Self { tint_color: Some(tint_color), ..self }),
    {
        Self { tint_color: Some(tint_color), ..self }
    }
}

#[derive(Debug, Clone)]
pub struct TitleAndText {
    pub icon: Option<String>,
    pub tint_icon: bool,
    pub tint_color: Option<String>,
    pub title: String,
    pub text: String,
    pub action: Action,
}

impl TitleAndText {
    pub fn new(title: String, text: String, action: Action) -> (r: Self)
        ensures
            r == (Self { icon: None, tint_icon: false, tint_color: None, title, text, action }),
    {
        Self { icon: None, tint_icon: false, tint_color: None, title, text, action }
    }

    pub fn icon(self, icon_path: String) -> (r: Self)
        ensures
            r == (Self { icon: Some(icon_path), ..self }),
    {
        Self { icon: Some(icon_path), ..self }
    }

    pub fn tint_icon(self, tint_icon: bool) -> (r: Self)
        ensures
            r == (Self { tint_icon, ..self }),
    {
        Self { tint_icon, ..self }
    }

    pub fn tint_color(self, tint_color: String) -> (r: Self)
        ensures
            r == (Self { tint_color: Some(tint_color), ..self }),
    {
        Self { tint_color: Some(tint_color), ..self }
    }
}

} // verus!
