use whiskers_launcher::action::{
    Action, ActionType, CopyAction, DialogAction, ExtensionAction, Field, FieldType, FileFilter,
    FilePickerField, InputField, OpenAppAction, OpenURLAction, SelectField, SelectOption, TextAreaField,
    ToggleField,
};
use whiskers_launcher::actions;
use whiskers_launcher::api::extensions::{
    ActionContext, DialogResponse, DialogResult, ExtensionRequest, ExtensionResponse,
};
use whiskers_launcher::dialog::{self, DialogField};
use whiskers_launcher::indexing::App;
use whiskers_launcher::result::{ResultType, TextResult, TitleAndDescriptionResult, WLResult};
use whiskers_launcher::results::{Text, TitleAndText, WhiskersResult};

fn s(x: &str) -> String {
    x.to_string()
}

#[test]
fn action_constructors_set_one_payload() {
    let a = Action::new_open_app(OpenAppAction::new(s("firefox")));
    assert!(matches!(a.action_type, ActionType::OpenApp));
    assert_eq!(a.open_app.unwrap().id, "firefox");
    assert!(a.open_url.is_none() && a.copy.is_none() && !a.ignore);

    let u = Action::new_open_url(OpenURLAction::new(s("https://x.org")));
    assert_eq!(u.open_url.unwrap().url, "https://x.org");
    let c = Action::new_copy(CopyAction::new(s("txt"))).ask_confirmation(true);
    assert!(c.ask_confirmation);
    assert_eq!(c.copy.unwrap().text, "txt");

    let i = Action::new_ignore();
    assert!(i.ignore);
    assert!(matches!(i.action_type, ActionType::Ignore));
    assert!(!i.ask_confirmation);
}

#[test]
fn extension_and_dialog_actions() {
    let e = ExtensionAction::new(s("ext1"), s("run")).args(vec![s("a")]);
    assert_eq!(e.args, Some(vec![s("a")]));
    let a = Action::new_extension(e);
    assert_eq!(a.extension.unwrap().action, "run");

    let f = Field::new_input(s("name"), InputField::new(s("v"), s("Name"), s("d")).placeholder(s("p")));
    assert!(matches!(f.field_type, FieldType::Input));
    assert_eq!(f.input_field.as_ref().unwrap().placeholder, "p");
    let d = DialogAction::new(s("ext1"), s("save"), s("Title"), s("Save"), vec![f]).args(vec![s("z")]);
    assert_eq!(d.fields.len(), 1);
    assert_eq!(d.args, Some(vec![s("z")]));
    let a = Action::new_dialog(d);
    assert!(matches!(a.action_type, ActionType::Dialog));
}

#[test]
fn field_constructors() {
    let t = Field::new_toggle(s("t"), ToggleField::new(true, s("T"), s("D")));
    assert!(t.toggle_field.unwrap().default_value);
    let ta = Field::new_text_area(s("ta"), TextAreaField::new(s(""), s("T"), s("D")));
    assert_eq!(ta.text_area_field.unwrap().placeholder, "");
    let sel = Field::new_select(
        s("s"),
        SelectField::new(s("a"), s("T"), s("D"), vec![SelectOption::new(s("a"), s("A"))]),
    )
    .args(vec![s("x")]);
    assert_eq!(sel.select_field.unwrap().options[0].value, "A");
    assert_eq!(sel.args, Some(vec![s("x")]));
    let fp = FilePickerField::new(s("T"), s("D"))
        .default_path(s("/tmp"))
        .filters(vec![FileFilter::new(s("Images"), vec![s("png")])])
        .pick_directory(true);
    assert!(fp.pick_directory);
    assert_eq!(fp.default_path.as_deref(), Some("/tmp"));
    let f = Field::new_file_picker(s("f"), fp);
    assert!(matches!(f.field_type, FieldType::FilePicker));
}

#[test]
fn results_constructors() {
    let t = TextResult::new(s("hello"), Action::new_ignore()).icon(s("i.png")).tint(s("accent"));
    let r = WLResult::new_text(t);
    assert!(matches!(r.result_type, ResultType::Text));
    assert_eq!(r.text.as_ref().unwrap().icon.as_deref(), Some("i.png"));
    let td = TitleAndDescriptionResult::new(s("T"), s("D"), Action::new_ignore()).tint(s("x"));
    let r2 = WLResult::new_title_and_description(td);
    assert_eq!(r2.title_and_description.unwrap().tint.as_deref(), Some("x"));
    let div = WLResult::new_divider();
    assert!(div.divider && div.text.is_none());
}

#[test]
fn tagged_results_and_actions() {
    let t = Text::new(s("bulbasaur"), actions::Action::Nothing).icon(s("a.svg")).tint_icon(true).tint_color(s("red"));
    assert!(t.tint_icon);
    assert_eq!(t.tint_color.as_deref(), Some("red"));
    let tt = TitleAndText::new(s("T"), s("x"), actions::Action::OpenUrl(actions::OpenUrl::new(s("u"))));
    assert!(!tt.tint_icon && tt.icon.is_none());
    let r = WhiskersResult::TitleAndText(tt);
    assert!(matches!(r, WhiskersResult::TitleAndText(_)));
    let d = actions::Dialog::new(s("e"), s("Title"), s("act"), vec![]).primary_button_text(s("OK"));
    assert_eq!(d.primary_button_text.as_deref(), Some("OK"));
    assert_eq!(d.extension_action, "act");
    let e = actions::Extension::new(s("e"), s("run")).args(vec![s("1")]);
    assert_eq!(e.args, Some(vec![s("1")]));
}

#[test]
fn dialog_fields() {
    let i = dialog::Input::new(s("id"), s("Title"), s("v")).description(s("d")).placeholder(s("p")).custom_args(vec![s("c")]);
    assert_eq!(i.value, "v");
    assert_eq!(i.placeholder.as_deref(), Some("p"));
    let t = dialog::Toggle::new(s("t"), s("T"), true).description(s("d"));
    assert!(t.toggled);
    let sel = dialog::Select::new(s("s"), s("T"), s("b"), vec![dialog::SelectField::new(s("b"), s("B"))]);
    assert_eq!(sel.default_field_id, "b");
    let ta = dialog::TextArea::new(s("ta"), s("T"), s("v")).custom_args(vec![]);
    assert_eq!(ta.custom_args, Some(vec![]));
    let f = dialog::FileFilter::new(s("Images")).add_extension(s("png")).add_extension(s("jpg"));
    assert_eq!(f.file_extensions, vec![s("png"), s("jpg")]);
    let sf = dialog::SelectFile::new(s("f"), s("T")).select_dir(true).default_path(s("/h")).filters(vec![f]);
    assert!(sf.select_dir && sf.value.is_empty());
    assert_eq!(sf.filters.len(), 1);
    let field = DialogField::SelectFile(sf);
    assert!(matches!(field, DialogField::SelectFile(_)));
}

#[test]
fn request_and_response_builders() {
    let r = ExtensionRequest::new(s("ext1"), ActionContext::RunAction).args(vec![s("a")]);
    assert_eq!(r.extension_id, "ext1");
    assert_eq!(r.action_context, ActionContext::RunAction);
    assert_eq!(r.args, Some(vec![s("a")]));
    assert!(r.search_text.is_none() && r.extension_action.is_none());
    let q = ExtensionRequest::new(s("e"), ActionContext::ResultsRequest).search_text(s("abc")).extension_action(s("go"));
    assert_eq!(q.search_text.as_deref(), Some("abc"));
    assert_eq!(q.extension_action.as_deref(), Some("go"));
    let resp = ExtensionResponse::new(vec![]);
    assert!(resp.results.is_empty() && resp.args.is_none());
    let resp = resp.args(vec![s("b")]);
    assert_eq!(resp.args, Some(vec![s("b")]));
}

#[test]
fn dialog_response_lookup() {
    let resp = DialogResponse {
        results: vec![
            DialogResult { field_id: s("a"), field_value: s("1"), args: None },
            DialogResult { field_id: s("b"), field_value: s("2"), args: None },
            DialogResult { field_id: s("a"), field_value: s("3"), args: None },
        ],
        args: None,
    };
    assert_eq!(resp.clone().get_result_value(s("a")), Some(s("1")));
    assert_eq!(resp.clone().get_result_value(s("b")), Some(s("2")));
    assert_eq!(resp.get_result_value(s("c")), None);
}

#[test]
fn app_builder() {
    let a = App::new(s("id"), s("Firefox"), s("/usr/bin/firefox")).icon(s("ff.png"));
    assert_eq!(a.title, "Firefox");
    assert_eq!(a.icon.as_deref(), Some("ff.png"));
}
