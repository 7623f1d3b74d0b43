use note_editor::app_state::{response_text, AppState, KeyOutcome};
use note_editor::clipboard::{ClipboardError, ClipboardRequest};
use note_editor::focus::Focus;
use note_editor::keys::{Key, KeyPress, Modifiers};
use note_editor::request;
use note_editor::response;

const PLAIN: Modifiers = Modifiers { control: false, shift: false };
const SHIFT: Modifiers = Modifiers { control: false, shift: true };
const CONTROL: Modifiers = Modifiers { control: true, shift: false };

fn key(code: Key, modifiers: Modifiers) -> KeyPress {
    KeyPress { code, modifiers }
}

fn note(id: u128, text: &str) -> response::Note {
    response::Note { id, text: text.to_string(), created_at: 0 }
}

fn tag(id: u128, name: &str) -> response::Tag {
    response::Tag { id, name: name.to_string() }
}

fn shown(message: response::Message) -> String {
    response_text(&message).iter().collect()
}

fn query(tags: &[&str], text: Option<&str>) -> Option<request::Message> {
    Some(request::Message::GetNotesFiltered(request::GetNotesFiltered {
        search_text: text.map(|t| t.to_string()),
        tags: Some(tags.iter().map(|t| t.to_string()).collect()),
        limit: Some(10),
        offset: Some(0),
    }))
}

fn quiet(outcome: &KeyOutcome) -> bool {
    outcome.clipboard == ClipboardRequest::Nothing && outcome.request.is_none()
}

fn search_line(app: &AppState) -> String {
    app.search.text_box().chars().iter().collect()
}

fn new_note_line(app: &AppState) -> String {
    app.new_note.chars().iter().collect()
}

#[test]
fn response_text_of_notes_is_one_line_each() {
    assert_eq!(shown(response::Message::Notes(vec![])), "");
    assert_eq!(shown(response::Message::Notes(vec![note(1, "one")])), "one");
    assert_eq!(
        shown(response::Message::Notes(vec![note(1, "one"), note(2, ""), note(3, "thrée")])),
        "one\n\nthrée"
    );
}

#[test]
fn response_text_of_tags_puts_the_marker_first() {
    assert_eq!(shown(response::Message::Tags(vec![])), "");
    assert_eq!(shown(response::Message::Tags(vec![tag(1, "work"), tag(2, "home")])), "#work\n#home");
}

#[test]
fn response_text_of_an_unknown_message_is_quoted() {
    assert_eq!(shown(response::Message::Unknown("hi".to_string())), "\"hi\"");
    assert_eq!(shown(response::Message::Unknown("a\"b\n".to_string())), "\"a\\\"b\\n\"");
}

#[test]
fn new_client_is_idle_and_empty() {
    let app = AppState::new();
    assert!(!app.running);
    assert_eq!(app.focus, Focus::Search);
    assert_eq!(search_line(&app), "");
    assert_eq!(new_note_line(&app), "");
    assert_eq!(app.new_note.text_box().title, "New Note");
    assert_eq!(app.search.text_box().text_box().title, "Search");
    assert!(app.search_results.search_results.is_empty());
    assert_eq!(app.search_results.selected_index, 0);
    assert!(app.response_box.text.is_empty());
}

#[test]
fn typing_in_the_search_line_asks_for_notes() {
    let mut app = AppState::new();
    let mut sent = Vec::new();
    for c in "#a b".chars() {
        let outcome = app.on_key_event(key(Key::Char(c), PLAIN));
        assert_eq!(outcome.clipboard, ClipboardRequest::Nothing);
        sent.push(outcome.request);
    }
    assert_eq!(
        sent,
        vec![query(&[""], None), query(&["a"], None), query(&["a"], None), query(&["a"], Some("b"))]
    );
    assert_eq!(search_line(&app), "#a b");
    let outcome = app.on_key_event(key(Key::Backspace, PLAIN));
    assert_eq!(outcome.request, query(&["a"], None));
    let outcome = app.on_key_event(key(Key::Delete, PLAIN));
    assert_eq!(outcome.request, query(&["a"], None));
}

#[test]
fn arrows_in_the_search_line_ask_for_nothing() {
    let mut app = AppState::new();
    app.on_key_event(key(Key::Char('x'), PLAIN));
    assert!(quiet(&app.on_key_event(key(Key::Left, PLAIN))));
    assert!(quiet(&app.on_key_event(key(Key::Right, SHIFT))));
    assert!(quiet(&app.on_key_event(key(Key::Other, PLAIN))));
    assert_eq!(app.search.text_box().cursor().position, 1);
}

#[test]
fn exit_key_stops_the_client_on_the_search_line_only() {
    let mut app = AppState::new();
    app.running = true;
    assert!(!app.maybe_exit(key(Key::Char('q'), PLAIN)));
    assert!(app.running);
    assert!(quiet(&app.on_key_event(key(Key::Char('q'), CONTROL))));
    assert!(!app.running);
    assert_eq!(search_line(&app), "");

    let mut writing = AppState::new();
    writing.running = true;
    writing.on_key_event(key(Key::Char('n'), CONTROL));
    assert_eq!(writing.focus, Focus::NewNote);
    assert!(!writing.maybe_exit(key(Key::Char('q'), CONTROL)));
    writing.on_key_event(key(Key::Char('q'), CONTROL));
    assert!(writing.running);
    assert_eq!(new_note_line(&writing), "q");
}

#[test]
fn quit_stops_the_client() {
    let mut app = AppState::new();
    app.running = true;
    app.quit();
    assert!(!app.running);
}

#[test]
fn focus_keys_move_the_focus_and_are_not_typed() {
    let mut app = AppState::new();
    assert!(quiet(&app.on_key_event(key(Key::Char('n'), CONTROL))));
    assert_eq!(app.focus, Focus::NewNote);
    assert_eq!(search_line(&app), "");
    assert_eq!(new_note_line(&app), "");
    assert!(quiet(&app.on_key_event(key(Key::Esc, PLAIN))));
    assert_eq!(app.focus, Focus::Search);
}

#[test]
fn typing_in_the_new_note_asks_for_nothing() {
    let mut app = AppState::new();
    app.on_key_event(key(Key::Char('n'), CONTROL));
    for c in "#milk".chars() {
        assert!(quiet(&app.on_key_event(key(Key::Char(c), PLAIN))));
    }
    assert_eq!(new_note_line(&app), "#milk");
    assert_eq!(search_line(&app), "");
    assert!(app.search.parsed_tags().is_empty());
}

#[test]
fn up_and_down_move_the_highlight_whatever_has_the_focus() {
    let mut app = AppState::new();
    app.handle_websocket_message(Some(response::Message::Notes(vec![note(1, "a"), note(2, "b")])));
    assert!(quiet(&app.on_key_event(key(Key::Down, PLAIN))));
    assert_eq!(app.search_results.selected_index, 1);
    assert!(quiet(&app.on_key_event(key(Key::Down, PLAIN))));
    assert_eq!(app.search_results.selected_index, 1);
    app.on_key_event(key(Key::Char('n'), CONTROL));
    assert!(quiet(&app.on_key_event(key(Key::Up, PLAIN))));
    assert_eq!(app.search_results.selected_index, 0);
    assert!(quiet(&app.on_key_event(key(Key::Up, PLAIN))));
    assert_eq!(app.search_results.selected_index, 0);
    assert_eq!(search_line(&app), "");
    assert_eq!(new_note_line(&app), "");
}

#[test]
fn notes_fill_the_response_box_and_the_result_list() {
    let mut app = AppState::new();
    app.handle_websocket_message(Some(response::Message::Notes(vec![
        note(1, "a"),
        note(2, "b"),
        note(3, "c"),
    ])));
    app.on_key_event(key(Key::Down, PLAIN));
    app.on_key_event(key(Key::Down, PLAIN));
    assert_eq!(app.search_results.selected_index, 2);
    app.handle_websocket_message(Some(response::Message::Notes(vec![note(4, "x"), note(5, "y")])));
    assert_eq!(app.response_box.text_string(), "x\ny");
    assert_eq!(app.search_results.selected_index, 0);
    let ids: Vec<u128> = app.search_results.search_results.iter().map(|entry| entry.0.id).collect();
    assert_eq!(ids, vec![4, 5]);
}

#[test]
fn other_messages_leave_the_result_list() {
    let mut app = AppState::new();
    app.handle_websocket_message(Some(response::Message::Notes(vec![note(1, "a"), note(2, "b")])));
    app.on_key_event(key(Key::Down, PLAIN));
    app.handle_websocket_message(Some(response::Message::Tags(vec![tag(1, "t")])));
    assert_eq!(app.response_box.text_string(), "#t");
    assert_eq!(app.search_results.selected_index, 1);
    assert_eq!(app.search_results.search_results.len(), 2);
    app.handle_websocket_message(Some(response::Message::Unknown("what".to_string())));
    assert_eq!(app.response_box.text_string(), "\"what\"");
    app.handle_websocket_message(None);
    assert_eq!(app.response_box.text_string(), "\"what\"");
    assert_eq!(app.search_results.search_results.len(), 2);
}

#[test]
fn cut_and_paste_in_the_search_line_ask_for_notes() {
    let mut app = AppState::new();
    for c in "#a rest".chars() {
        app.on_key_event(key(Key::Char(c), PLAIN));
    }
    for _ in 0..4 {
        app.on_key_event(key(Key::Left, SHIFT));
    }
    let outcome = app.on_key_event(key(Key::Char('x'), CONTROL));
    assert_eq!(outcome.clipboard, ClipboardRequest::Cut("rest".to_string()));
    assert_eq!(outcome.request, query(&["a"], Some("rest")));
    assert_eq!(app.complete_cut(Ok(())), Ok(query(&["a"], None)));
    assert_eq!(search_line(&app), "#a ");
    let outcome = app.on_key_event(key(Key::Char('v'), CONTROL));
    assert_eq!(outcome.clipboard, ClipboardRequest::Paste);
    assert_eq!(app.complete_paste(Ok("#b more".to_string())), Ok(query(&["a", "b"], Some("more"))));
    assert_eq!(search_line(&app), "#a #b more");
}

#[test]
fn cut_and_paste_in_the_new_note_ask_for_nothing() {
    let mut app = AppState::new();
    app.on_key_event(key(Key::Char('n'), CONTROL));
    for c in "note".chars() {
        app.on_key_event(key(Key::Char(c), PLAIN));
    }
    app.on_key_event(key(Key::Char('a'), CONTROL));
    let outcome = app.on_key_event(key(Key::Char('x'), CONTROL));
    assert_eq!(outcome.clipboard, ClipboardRequest::Cut("note".to_string()));
    assert_eq!(outcome.request, None);
    assert_eq!(app.complete_cut(Ok(())), Ok(None));
    assert_eq!(new_note_line(&app), "");
    assert_eq!(app.complete_paste(Ok("note".to_string())), Ok(None));
    assert_eq!(new_note_line(&app), "note");
    assert_eq!(search_line(&app), "");
}

#[test]
fn clipboard_failures_are_handed_on_and_change_nothing() {
    let mut app = AppState::new();
    for c in "#a rest".chars() {
        app.on_key_event(key(Key::Char(c), PLAIN));
    }
    app.on_key_event(key(Key::Char('a'), CONTROL));
    assert_eq!(app.complete_cut(Err(ClipboardError::Unavailable)), Err(ClipboardError::Unavailable));
    assert_eq!(
        app.complete_paste(Err(ClipboardError::Unavailable)),
        Err(ClipboardError::Unavailable)
    );
    assert_eq!(search_line(&app), "#a rest");
    assert_eq!(app.search.text_box().cursor().selection_anchor, Some(0));
    assert_eq!(*app.search.parsed_search_text(), Some("rest".to_string()));
}
