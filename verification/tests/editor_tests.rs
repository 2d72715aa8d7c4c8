use rudit::editor::{
    Editor, EditorState, InputEvent, KeyEvent, KeyInput, MouseEvent, SaveRequest,
};
use rudit::command::CommandError;
use rudit::pos::Pos;

fn key(chord: &str, key: KeyInput) -> InputEvent {
    InputEvent::Key(KeyEvent { chord: chord.to_string(), key })
}

fn char_key(c: char) -> InputEvent {
    key(&c.to_string(), KeyInput::Text(c.to_string()))
}

fn type_text(editor: &mut Editor, text: &str) {
    for c in text.chars() {
        editor.process_event(char_key(c));
    }
}

fn enter() -> InputEvent {
    key("Enter", KeyInput::Enter)
}

#[test]
fn new_editor_starts_in_init() {
    let e = Editor::new();
    assert_eq!(e.state(), EditorState::Init);
    assert!(!e.is_done());
    assert_eq!(e.filename(), &None);
}

#[test]
fn events_are_ignored_in_init_state() {
    let mut e = Editor::new();
    let out = e.process_event(char_key('x'));
    assert_eq!(out.save, None);
    assert_eq!(out.command_error, None);
    assert_eq!(e.edit_buffer().content_lines_len(), 0);
    assert_eq!(e.state(), EditorState::Init);
}

#[test]
fn layout_in_edit_mode_reserves_status_line() {
    let mut e = Editor::new();
    e.set_state(EditorState::EditMode);
    e.update_layout(Pos::new(80, 24));
    assert_eq!(e.edit_buffer().get_viewport_size(), Pos::new(80, 23));
    assert_eq!(e.command_buffer().get_viewport_size(), Pos::new(80, 0));
}

#[test]
fn layout_in_command_mode_splits_height() {
    let mut e = Editor::new();
    e.set_state(EditorState::EditMode);
    e.update_layout(Pos::new(80, 24));
    // Seed one line of command input, then enter command mode.
    e.process_event(key("Esc", KeyInput::Enter));
    assert_eq!(e.state(), EditorState::CommandMode);
    // The command buffer is empty (zero lines), so its viewport is empty
    // and the edit buffer keeps the remainder above the status line.
    assert_eq!(e.command_buffer().get_viewport_size(), Pos::new(80, 0));
    assert_eq!(e.edit_buffer().get_viewport_size(), Pos::new(80, 23));
    // Typing into the command buffer and relaying out grows it to one row.
    e.process_event(char_key('x'));
    e.update_layout(Pos::new(80, 24));
    assert_eq!(e.command_buffer().get_viewport_size(), Pos::new(80, 1));
    assert_eq!(e.edit_buffer().get_viewport_size(), Pos::new(80, 22));
    // The command buffer sits directly above the status line.
    assert_eq!(e.command_buffer().get_viewport()[0].0, Pos::new(0, 22));
}

#[test]
fn quit_chord_closes_the_editor() {
    let mut e = Editor::new();
    e.set_state(EditorState::EditMode);
    let out = e.process_event(key("Controlq", KeyInput::Text("q".to_string())));
    assert_eq!(out.save, None);
    assert!(e.is_done());
    assert_eq!(e.state(), EditorState::Close);
    // Once closed, further events do nothing.
    e.process_event(char_key('x'));
    assert_eq!(e.edit_buffer().content_lines_len(), 0);
}

#[test]
fn unbound_character_keys_insert_text() {
    let mut e = Editor::new();
    e.set_state(EditorState::EditMode);
    type_text(&mut e, "hi");
    assert_eq!(e.edit_buffer().get_contents(), "hi");
    assert_eq!(e.last_keypress(), "i");
}

#[test]
fn unbound_other_keys_insert_their_name() {
    let mut e = Editor::new();
    e.set_state(EditorState::EditMode);
    e.process_event(key("F5", KeyInput::Text("F5".to_string())));
    assert_eq!(e.edit_buffer().get_contents(), "F5");
}

#[test]
fn enter_splits_line_in_edit_mode() {
    let mut e = Editor::new();
    e.set_state(EditorState::EditMode);
    type_text(&mut e, "hi");
    e.process_event(enter());
    type_text(&mut e, "there");
    assert_eq!(e.edit_buffer().content_lines_len(), 2);
    assert_eq!(e.edit_buffer().get_contents(), "hi\nthere");
    assert_eq!(e.edit_buffer().get_cursor(), Pos::new(5, 1));
}

#[test]
fn arrow_and_delete_bindings_work_on_edit_buffer() {
    let mut e = Editor::new();
    e.set_state(EditorState::EditMode);
    type_text(&mut e, "abc");
    e.process_event(key("Left", KeyInput::Text("Left".to_string())));
    assert_eq!(e.edit_buffer().get_cursor(), Pos::new(2, 0));
    e.process_event(key("Backspace", KeyInput::Text("Backspace".to_string())));
    assert_eq!(e.edit_buffer().get_contents(), "ac");
    e.process_event(key("Delete", KeyInput::Text("Delete".to_string())));
    assert_eq!(e.edit_buffer().get_contents(), "a");
}

#[test]
fn page_down_moves_by_viewport_height_minus_one() {
    let mut e = Editor::new();
    e.set_document("doc.txt".to_string(), Some("a\nb\nc\nd\ne\nf\ng\nh\ni\nj".to_string()));
    e.set_state(EditorState::EditMode);
    e.update_layout(Pos::new(80, 4));
    // Viewport height is 3, so a page is 2 lines.
    e.process_event(key("PageDown", KeyInput::Text("PageDown".to_string())));
    assert_eq!(e.edit_buffer().get_cursor(), Pos::new(0, 2));
    e.process_event(key("PageUp", KeyInput::Text("PageUp".to_string())));
    assert_eq!(e.edit_buffer().get_cursor(), Pos::new(0, 0));
}

#[test]
fn save_document_with_path_yields_save_request() {
    let mut e = Editor::new();
    e.set_document("doc.txt".to_string(), Some("hello".to_string()));
    e.set_state(EditorState::EditMode);
    let out = e.process_event(key("Controls", KeyInput::Text("s".to_string())));
    assert_eq!(
        out.save,
        Some(SaveRequest { path: "doc.txt".to_string(), content: "hello\n".to_string() })
    );
    assert_eq!(e.state(), EditorState::EditMode);
}

#[test]
fn save_document_without_path_seeds_save_as_prompt() {
    let mut e = Editor::new();
    e.set_state(EditorState::EditMode);
    type_text(&mut e, "data");
    let out = e.process_event(key("Controls", KeyInput::Text("s".to_string())));
    assert_eq!(out.save, None);
    assert_eq!(e.state(), EditorState::CommandMode);
    assert_eq!(e.command_buffer().get_contents(), "save_as ");
    assert_eq!(e.command_buffer().get_cursor(), Pos::new(8, 0));
}

#[test]
fn save_as_command_sets_path_saves_and_returns_to_edit_mode() {
    let mut e = Editor::new();
    e.set_state(EditorState::EditMode);
    type_text(&mut e, "hello");
    e.process_event(key("Esc", KeyInput::Text("Esc".to_string())));
    assert_eq!(e.state(), EditorState::CommandMode);
    type_text(&mut e, "save_as notes.txt");
    let out = e.process_event(enter());
    assert_eq!(
        out.save,
        Some(SaveRequest { path: "notes.txt".to_string(), content: "hello\n".to_string() })
    );
    assert_eq!(out.command_error, None);
    assert_eq!(e.filename(), &Some("notes.txt".to_string()));
    assert_eq!(e.state(), EditorState::EditMode);
    assert_eq!(e.command_buffer().content_lines_len(), 0);
}

#[test]
fn set_filename_command_sets_and_clears_path() {
    let mut e = Editor::new();
    e.set_state(EditorState::EditMode);
    e.process_event(key("Esc", KeyInput::Text("Esc".to_string())));
    type_text(&mut e, "set_filename a.txt");
    e.process_event(enter());
    assert_eq!(e.filename(), &Some("a.txt".to_string()));
    assert_eq!(e.state(), EditorState::EditMode);
    e.process_event(key("Esc", KeyInput::Text("Esc".to_string())));
    type_text(&mut e, "set_filename");
    e.process_event(enter());
    assert_eq!(e.filename(), &None);
}

#[test]
fn unknown_command_is_reported_and_recoverable() {
    let mut e = Editor::new();
    e.set_state(EditorState::EditMode);
    e.process_event(key("Esc", KeyInput::Text("Esc".to_string())));
    type_text(&mut e, "frobnicate");
    let out = e.process_event(enter());
    assert_eq!(out.command_error, Some(CommandError::UnknownCommand));
    assert_eq!(out.save, None);
    assert!(!e.is_done());
    assert_eq!(e.state(), EditorState::EditMode);
}

#[test]
fn empty_command_is_reported() {
    let mut e = Editor::new();
    e.set_state(EditorState::EditMode);
    e.process_event(key("Esc", KeyInput::Text("Esc".to_string())));
    let out = e.process_event(enter());
    assert_eq!(out.command_error, Some(CommandError::EmptyCommand));
    assert_eq!(e.state(), EditorState::EditMode);
}

#[test]
fn save_as_without_name_is_missing_argument() {
    let mut e = Editor::new();
    e.set_state(EditorState::EditMode);
    e.process_event(key("Esc", KeyInput::Text("Esc".to_string())));
    type_text(&mut e, "save_as");
    let out = e.process_event(enter());
    assert_eq!(out.command_error, Some(CommandError::MissingArgument));
    assert_eq!(e.filename(), &None);
}

#[test]
fn resize_event_updates_layout_in_any_state() {
    let mut e = Editor::new();
    e.set_state(EditorState::EditMode);
    e.process_event(InputEvent::Resize(Pos::new(100, 30)));
    assert_eq!(e.window_size(), Pos::new(100, 30));
    assert_eq!(e.edit_buffer().get_viewport_size(), Pos::new(100, 29));
}

#[test]
fn mouse_wheel_moves_cursor_in_edit_mode() {
    let mut e = Editor::new();
    e.set_document("doc".to_string(), Some("a\nb\nc".to_string()));
    e.set_state(EditorState::EditMode);
    e.process_event(InputEvent::Mouse(MouseEvent::ScrollDown));
    assert_eq!(e.edit_buffer().get_cursor(), Pos::new(0, 1));
    e.process_event(InputEvent::Mouse(MouseEvent::ScrollUp));
    assert_eq!(e.edit_buffer().get_cursor(), Pos::new(0, 0));
}

#[test]
fn mouse_click_moves_cursor_relative() {
    let mut e = Editor::new();
    e.set_document("doc".to_string(), Some("abcdef\nxy".to_string()));
    e.set_state(EditorState::EditMode);
    e.process_event(InputEvent::Mouse(MouseEvent::LeftPress(Pos::new(3, 1))));
    assert_eq!(e.edit_buffer().get_cursor(), Pos::new(2, 1));
}

#[test]
fn set_document_with_unreadable_content_opens_empty_buffer() {
    let mut e = Editor::new();
    e.set_document("missing.txt".to_string(), None);
    assert_eq!(e.edit_buffer().content_lines_len(), 0);
    assert_eq!(e.filename(), &Some("missing.txt".to_string()));
}

#[test]
fn delete_all_clears_active_buffer() {
    let mut e = Editor::new();
    e.set_state(EditorState::EditMode);
    type_text(&mut e, "junk");
    e.process_event(key("Controld", KeyInput::Text("d".to_string())));
    assert_eq!(e.edit_buffer().content_lines_len(), 0);
}

#[test]
fn escape_toggles_between_modes() {
    let mut e = Editor::new();
    e.set_state(EditorState::EditMode);
    e.process_event(key("Esc", KeyInput::Text("Esc".to_string())));
    assert_eq!(e.state(), EditorState::CommandMode);
    e.process_event(key("Esc", KeyInput::Text("Esc".to_string())));
    assert_eq!(e.state(), EditorState::EditMode);
}
