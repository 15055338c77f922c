use vstd::prelude::*;
use crate::action::Action;

verus! {

/// A displayed result entry. `result_type` names the one payload that is set.
#[derive(Debug, Clone)]
pub struct WLResult {
    pub result_type: ResultType,
    pub text: Option<TextResult>,
    pub title_and_description: Option<TitleAndDescriptionResult>,
    pub divider: bool,
}

impl WLResult {
    /// The payload set matches `result_type`, and no other is set.
    pub open spec fn well_formed(&self) -> bool {
        &&& (self.text is Some <==> self.result_type == ResultType::Text)
        &&& (self.title_and_description is Some <==> self.result_type
            == ResultType::TitleAndDescription)
        &&& (self.divider <==> self.result_type == ResultType::Divider)
    }

    pub fn new_text(result: TextResult) -> (r: Self)
        ensures
            r.well_formed(),
            r.result_type == ResultType::Text,
            r.text == Some(result),
    {
        Self { result_type: ResultType::Text, text: Some(result), title_and_description: None, divider: false }
    }

    pub fn new_title_and_description(result: TitleAndDescriptionResult) -> (r: Self)
        ensures
            r.well_formed(),
            r.result_type == ResultType::TitleAndDescription,
            r.title_and_description == Some(result),
    {
        Self {
            result_type: ResultType::TitleAndDescription,
            text: None,
            title_and_description: Some(result),
            divider: false,
        }
    }

    pub fn new_divider() -> (r: Self)
        ensures
            r.well_formed(),
            r.result_type == ResultType::Divider,
    {
        Self { result_type: ResultType::Divider, text: None, title_and_description: None, divider: true }
    }
}

#[derive(Debug, Clone, Copy, PartialEq, Eq, Structural)]
pub enum ResultType {
    Text,
    TitleAndDescription,
    Divider,
}

#[derive(Debug, Clone)]
pub struct TextResult {
    pub icon: Option<String>,
    pub tint: Option<String>,
    pub text: String,
    pub action: Action,
}

impl TextResult {
    pub fn new(text: String, action: Action) -> (r: Self)
        ensures
            r == (Self { icon: None, tint: None, text, action }),
    {
        Self { icon: None, tint: None, text, action }
    }

    pub fn icon(self, icon: String) -> (r: Self)
        ensures
            r == (Self { icon: Some(icon), ..self }),
    {
        Self { icon: Some(icon), ..self }
    }

    pub fn tint(self, tint: String) -> (r: Self)
        ensures
            r == (Self { tint: Some(tint), ..self }),
    {
        Self { tint: Some(tint), ..self }
    }
}

#[derive(Debug, Clone)]
pub struct TitleAndDescriptionResult {
    pub icon: Option<String>,
    pub tint: Option<String>,
    pub title: String,
    pub description: String,
    pub action: Action,
}

impl TitleAndDescriptionResult {
    pub fn new(title: String, description: String, action: Action) -> (r: Self)
        ensures
            r == (Self { icon: None, tint: None, title, description, action }),
    {
        Self { icon: None, tint: None, title, description, action }
    }

    pub fn icon(self, icon: String) -> (r: Self)
        ensures
            r == (Self { icon: Some(icon), ..self }),
    {
        Self { icon: Some(icon), ..self }
    }

    pub fn tint(self, tint: String) -> (r: Self)
        ensures
            r == (Self { tint: Some(tint), ..self }),
    {
        Self { tint: Some(tint), ..self }
    }
}

} // verus!
