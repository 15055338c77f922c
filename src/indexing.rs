use vstd::prelude::*;

verus! {

/// An installed application found by indexing.
#[derive(Debug, Clone)]
pub struct App {
    pub id: String,
    pub title: String,
    pub icon: Option<String>,
    pub path: String,
}

impl App {
    pub fn new(id: String, title: String, path: String) -> (r: Self)
        ensures
            r == (Self { id, title, icon: None, path }),
    {
        Self { id, title, icon: None, path }
    }

    pub fn icon(self, icon: String) -> (r: Self)
        ensures
            r == (Self { icon: Some(icon), ..self }),
    {
        Self { icon: Some(icon), ..self }
    }
}

} // verus!
