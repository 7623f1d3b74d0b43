use note_editor::app_state::AppState;
use note_editor::engine::{plan, respond, StoreCommand, StoreOutcome};
use note_editor::keys::{Key, KeyPress, Modifiers};
use note_editor::request;
use note_editor::response;
use note_editor::search::SearchBox;

fn strings(names: &[&str]) -> Vec<String> {
    names.iter().map(|name| name.to_string()).collect()
}

#[test]
fn plan_create_note_stores_text_and_tags() {
    let message = request::Message::CreateNote(request::CreateNote {
        text: "buy milk".to_string(),
        tags: strings(&["home", "shop"]),
    });
    assert_eq!(
        plan(message),
        StoreCommand::CreateNote { text: "buy milk".to_string(), tags: strings(&["home", "shop"]) }
    );
}

#[test]
fn plan_create_tag_stores_the_name() {
    let message = request::Message::CreateTag(request::CreateTag { name: "home".to_string() });
    assert_eq!(plan(message), StoreCommand::CreateTag { name: "home".to_string() });
}

#[test]
fn plan_get_notes_and_tags_fetch_everything() {
    let notes = request::Message::GetNotes(request::GetNotes { limit: Some(5), offset: None });
    assert_eq!(plan(notes), StoreCommand::GetAllNotes);
    assert_eq!(plan(request::Message::GetTags), StoreCommand::GetAllTags);
}

#[test]
fn plan_filter_passes_the_query_on() {
    let message = request::Message::GetNotesFiltered(request::GetNotesFiltered {
        search_text: Some("milk".to_string()),
        tags: Some(strings(&["home"])),
        limit: Some(10),
        offset: Some(0),
    });
    assert_eq!(
        plan(message),
        StoreCommand::GetNotesFiltered {
            search_text: "milk".to_string(),
            tags: strings(&["home"]),
            limit: Some(10),
            offset: Some(0),
        }
    );
}

#[test]
fn plan_filter_without_text_or_tags_searches_for_nothing() {
    let message = request::Message::GetNotesFiltered(request::GetNotesFiltered {
        search_text: None,
        tags: None,
        limit: None,
        offset: Some(3),
    });
    assert_eq!(
        plan(message),
        StoreCommand::GetNotesFiltered {
            search_text: String::new(),
            tags: Vec::new(),
            limit: None,
            offset: Some(3),
        }
    );
}

#[test]
fn plan_answers_test_and_unknown_messages_at_once() {
    let test = request::Message::Test(request::TestStruct {
        field1: "a".to_string(),
        field2: "b".to_string(),
    });
    assert_eq!(
        plan(test),
        StoreCommand::Answer(response::Message::Unknown("test message received".to_string()))
    );
    assert_eq!(
        plan(request::Message::Unknown("ping".to_string())),
        StoreCommand::Answer(response::Message::Unknown("ping".to_string()))
    );
}

#[test]
fn respond_hands_on_what_was_found() {
    let note = response::Note { id: 1, text: "a".to_string(), created_at: 5 };
    let tag = response::Tag { id: 2, name: "t".to_string() };
    assert_eq!(
        respond(StoreOutcome::Notes(vec![note.clone()])),
        response::Message::Notes(vec![note])
    );
    assert_eq!(respond(StoreOutcome::Tags(vec![tag.clone()])), response::Message::Tags(vec![tag]));
    assert_eq!(respond(StoreOutcome::Notes(Vec::new())), response::Message::Notes(Vec::new()));
}

#[test]
fn respond_reports_a_failure_as_an_unknown_message() {
    assert_eq!(
        respond(StoreOutcome::Failed("connection refused".to_string())),
        response::Message::Unknown("connection refused".to_string())
    );
}

#[test]
fn states_made_by_the_operations_are_well_formed() {
    let mut app = AppState::new();
    assert!(app.is_well_formed());
    let plain = Modifiers { control: false, shift: false };
    let shift = Modifiers { control: false, shift: true };
    let control = Modifiers { control: true, shift: false };
    let keys = [
        (Key::Char('#'), plain),
        (Key::Char('a'), plain),
        (Key::Char(' '), plain),
        (Key::Char('b'), plain),
        (Key::Left, shift),
        (Key::Left, control),
        (Key::Char('n'), control),
        (Key::Char('x'), plain),
        (Key::Char('a'), control),
        (Key::Backspace, plain),
        (Key::Down, plain),
        (Key::Esc, plain),
        (Key::Delete, plain),
    ];
    for (code, modifiers) in keys {
        app.on_key_event(KeyPress { code, modifiers });
        assert!(app.is_well_formed());
    }
    app.handle_websocket_message(Some(response::Message::Notes(Vec::new())));
    assert!(app.is_well_formed());
}

#[test]
fn a_stray_index_is_not_well_formed() {
    let mut app = AppState::new();
    app.search_results.selected_index = 1;
    assert!(!app.is_well_formed());
    app.search_results.move_selection(true);
    assert!(app.is_well_formed());
    assert!(SearchBox::default().is_well_formed());
}
