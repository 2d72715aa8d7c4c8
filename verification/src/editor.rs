//! The editor controller: it owns an edit-mode line buffer and a
//! command-mode line buffer, a mode state machine, and the configuration,
//! and routes each input event through the keybinding table of the active
//! mode to a buffer operation, a mode transition, or a command.
//!
//! The controller performs no input or output itself: loading and saving
//! pass through plain values (a document's text in, a [`SaveRequest`] out),
//! and raw device events arrive already translated into [`InputEvent`]
//! values.

use crate::buffer::{
    buf_wf, del_steps, left_steps, right_steps, spec_cap_scroll, spec_insert_text,
    spec_move_cursor, spec_move_down, spec_move_down_n, spec_move_up, spec_move_up_n,
    spec_split_line, Buffer, BufferView,
};
use crate::command::{spec_parse_command, CommandError, CommandView, EditorCommand};
use crate::config::{kb_find, lookup_binding, Config, ConfigView};
use crate::pos::{Pos, PosView};
use crate::textops::{join_lines, join_sep, split_lines};
use vstd::math::{max, min};
use vstd::prelude::*;

verus! {

/// The controller's interaction state.  `Init` becomes `EditMode` on the
/// first layout pass; `Close` is terminal — once entered, no further event
/// is processed and the run loop must exit.
#[derive(Clone, Copy, Debug, PartialEq, Eq, Structural)]
pub enum EditorState {
    Init,
    EditMode,
    CommandMode,
    Close,
}

/// What a keybinding can be bound to.
#[derive(Clone, Debug, PartialEq, Eq)]
pub enum EditorAction {
    Quit,
    MoveUp,
    MoveDown,
    MoveRight,
    MoveLeft,
    PageUp,
    PageDown,
    SaveDocument,
    DeleteCharBack,
    DeleteCharFront,
    DeleteAll,
    GoIntoCommandMode,
    GoIntoEditMode,
    Command(EditorCommand),
}

/// An exact copy of a command, with the copy's equality proved.
pub fn clone_command(c: &EditorCommand) -> (r: EditorCommand)
    ensures
        r == *c,
{
    match c {
        EditorCommand::SetFilename(s) => EditorCommand::SetFilename(s.clone()),
        EditorCommand::SaveAs(s) => EditorCommand::SaveAs(s.clone()),
    }
}

/// An exact copy of an action, with the copy's equality proved.
pub fn clone_action(a: &EditorAction) -> (r: EditorAction)
    ensures
        r == *a,
{
    match a {
        EditorAction::Quit => EditorAction::Quit,
        EditorAction::MoveUp => EditorAction::MoveUp,
        EditorAction::MoveDown => EditorAction::MoveDown,
        EditorAction::MoveRight => EditorAction::MoveRight,
        EditorAction::MoveLeft => EditorAction::MoveLeft,
        EditorAction::PageUp => EditorAction::PageUp,
        EditorAction::PageDown => EditorAction::PageDown,
        EditorAction::SaveDocument => EditorAction::SaveDocument,
        EditorAction::DeleteCharBack => EditorAction::DeleteCharBack,
        EditorAction::DeleteCharFront => EditorAction::DeleteCharFront,
        EditorAction::DeleteAll => EditorAction::DeleteAll,
        EditorAction::GoIntoCommandMode => EditorAction::GoIntoCommandMode,
        EditorAction::GoIntoEditMode => EditorAction::GoIntoEditMode,
        EditorAction::Command(c) => EditorAction::Command(clone_command(c)),
    }
}

/// A key press, already resolved by the input layer: the chord identifier
/// used for keybinding lookup, and what the key stands for when unbound.
#[derive(Clone, Debug, PartialEq, Eq)]
pub struct KeyEvent {
    /// The textual encoding of the modifiers plus the key.
    pub chord: String,
    pub key: KeyInput,
}

/// What an unbound key press falls back to.
#[derive(Clone, Debug, PartialEq, Eq)]
pub enum KeyInput {
    /// The Enter key: split the line, or run the command buffer's content.
    Enter,
    /// Any other key: the text it inserts — a character key's character, or
    /// a remaining key's textual name (deliberately inserted rather than
    /// silently dropped).
    Text(String),
}

/// A mouse action in device cells.
#[derive(Clone, Copy, Debug, PartialEq, Eq, Structural)]
pub enum MouseEvent {
    ScrollUp,
    ScrollDown,
    /// A primary-button press at the given device column and row.
    LeftPress(Pos),
}

/// One input event handed to the controller by the run loop.
#[derive(Clone, Debug, PartialEq, Eq)]
pub enum InputEvent {
    Key(KeyEvent),
    Mouse(MouseEvent),
    /// The terminal was resized to the given width and height.
    Resize(Pos),
}

/// A request to persist the document, handed back to the run loop: the
/// controller computes the path and the serialized content, the caller
/// performs the write.
#[derive(Clone, Debug, PartialEq, Eq)]
pub struct SaveRequest {
    pub path: String,
    pub content: String,
}

/// What processing one event asks of the run loop: possibly a save to
/// perform, and possibly a command-grammar error to surface on the status
/// line.  Neither ever terminates the loop.
#[derive(Clone, Debug, PartialEq, Eq)]
pub struct EventOutcome {
    pub save: Option<SaveRequest>,
    pub command_error: Option<CommandError>,
}

/// The view of a possible save request: its path and content as character
/// sequences.
pub open spec fn save_req_view(o: Option<SaveRequest>) -> Option<(Seq<char>, Seq<char>)> {
    match o {
        Some(s) => Some((s.path@, s.content@)),
        None => None,
    }
}

/// The mathematical view of an [`Editor`].
pub ghost struct EditorView {
    pub window_size: PosView,
    pub edit: BufferView,
    pub command: BufferView,
    pub state: EditorState,
    pub config: ConfigView,
    pub filename: Option<Seq<char>>,
    pub last_keypress: Seq<char>,
    pub need_full_clear: bool,
}

/// A buffer as every constructor yields it: the given lines, everything
/// else at the origin, terminator `"\n"`.
pub open spec fn spec_fresh_buffer(lines: Seq<Seq<char>>) -> BufferView {
    BufferView {
        lines,
        cursor: PosView { x: 0, y: 0 },
        scroll: PosView { x: 0, y: 0 },
        viewport_size: PosView { x: 0, y: 0 },
        screen_origin: PosView { x: 0, y: 0 },
        endl: seq!['\n'],
    }
}

/// The layout pass: the bottom row is reserved for the status line; in edit
/// mode the command buffer is hidden and the edit buffer takes the rest; in
/// command mode the command buffer grows to fit its content (capped one row
/// short of the window), sits just above the status line, and the edit
/// buffer takes the remainder above it.  Other states keep both viewports.
pub open spec fn spec_layout(e: EditorView, w: PosView) -> EditorView {
    let cmd_vs = match e.state {
        EditorState::EditMode => PosView { x: w.x, y: 0 },
        EditorState::CommandMode => PosView {
            x: w.x,
            y: min(max(w.y - 1, 0), e.command.lines.len() as int),
        },
        _ => e.command.viewport_size,
    };
    let cmd_origin = PosView { x: 0, y: max(max(w.y - 1, 0) - cmd_vs.y, 0) };
    let edit_vs = match e.state {
        EditorState::EditMode => PosView { x: w.x, y: max(w.y - 1, 0) },
        EditorState::CommandMode => PosView { x: w.x, y: max(max(w.y - cmd_vs.y, 0) - 1, 0) },
        _ => e.edit.viewport_size,
    };
    EditorView {
        window_size: w,
        command: BufferView { viewport_size: cmd_vs, screen_origin: cmd_origin, ..e.command },
        edit: BufferView { viewport_size: edit_vs, ..e.edit },
        need_full_clear: true,
        ..e
    }
}

/// A buffer emptied: no lines, cursor at the origin, scroll re-clamped.
pub open spec fn spec_cleared(b: BufferView) -> BufferView {
    spec_cap_scroll(
        (BufferView { lines: Seq::<Seq<char>>::empty(), cursor: PosView { x: 0, y: 0 }, ..b }),
    )
}

/// What a buffer-directed action does to the buffer it is applied to; every
/// other action leaves the buffer alone.
pub open spec fn spec_buffer_action(b: BufferView, a: EditorAction) -> BufferView {
    match a {
        EditorAction::MoveUp => spec_move_up(b),
        EditorAction::MoveDown => spec_move_down(b),
        EditorAction::MoveLeft => spec_cap_scroll(
            (BufferView { cursor: left_steps(b.lines, b.cursor, 1).0, ..b }),
        ),
        EditorAction::MoveRight => spec_cap_scroll(
            (BufferView { cursor: right_steps(b.lines, b.cursor, 1).0, ..b }),
        ),
        EditorAction::PageUp => spec_move_up_n(b, max(b.viewport_size.y - 1, 0) as nat),
        EditorAction::PageDown => spec_move_down_n(b, max(b.viewport_size.y - 1, 0) as nat),
        EditorAction::DeleteCharBack => {
            let d = del_steps(b.lines, b.cursor, 1);
            spec_cap_scroll((BufferView { lines: d.0, cursor: d.1, ..b }))
        },
        EditorAction::DeleteCharFront => {
            let m = right_steps(b.lines, b.cursor, 1);
            let v1 = spec_cap_scroll((BufferView { cursor: m.0, ..b }));
            let d = del_steps(v1.lines, v1.cursor, m.1);
            spec_cap_scroll((BufferView { lines: d.0, cursor: d.1, ..v1 }))
        },
        EditorAction::DeleteAll => spec_cleared(b),
        _ => b,
    }
}

/// Running a parsed command: `set_filename` sets or, with an empty name,
/// clears the document path; `save_as` sets it.  The save itself is a
/// [`SaveRequest`] handed to the caller, see [`spec_command_save`].
pub open spec fn spec_execute_command(e: EditorView, c: CommandView) -> EditorView {
    match c {
        CommandView::SetFilename(name) => EditorView {
            filename: if name.len() == 0 {
                Option::None
            } else {
                Option::Some(name)
            },
            ..e
        },
        CommandView::SaveAs(name) => EditorView { filename: Option::Some(name), ..e },
    }
}

/// The save request a command produces: `save_as` writes the edit buffer's
/// serialized content to the named path.
pub open spec fn spec_command_save(e: EditorView, c: CommandView) -> Option<(Seq<char>, Seq<char>)> {
    match c {
        CommandView::SaveAs(name) => Some((name, join_lines(e.edit.lines, e.edit.endl))),
        CommandView::SetFilename(_) => None,
    }
}

/// Saving without a document path: the command buffer is seeded with a
/// `save_as ` prompt, the cursor placed at its end, and the controller
/// switches to command mode — an interactive fallback, not a silent no-op.
pub open spec fn spec_save_prompt(e: EditorView) -> EditorView {
    let b0 = spec_fresh_buffer(split_lines("save_as "@));
    let b1 = spec_move_cursor(b0, PosView { x: crate::buffer::line_len(b0.lines, 0), y: 0 });
    spec_layout(EditorView { state: EditorState::CommandMode, command: b1, ..e }, e.window_size)
}

/// Dispatching a bound action in edit mode.
pub open spec fn spec_apply_action_edit(e: EditorView, a: EditorAction) -> EditorView {
    match a {
        EditorAction::Quit => spec_layout(
            EditorView { state: EditorState::Close, ..e },
            e.window_size,
        ),
        EditorAction::GoIntoCommandMode => spec_layout(
            EditorView { state: EditorState::CommandMode, ..e },
            e.window_size,
        ),
        EditorAction::GoIntoEditMode => e,
        EditorAction::SaveDocument => if e.filename is Some {
            e
        } else {
            spec_save_prompt(e)
        },
        EditorAction::Command(c) => spec_execute_command(e, c@),
        _ => EditorView { edit: spec_buffer_action(e.edit, a), ..e },
    }
}

/// The save request a bound action produces in edit mode.
pub open spec fn spec_action_save_edit(e: EditorView, a: EditorAction) -> Option<
    (Seq<char>, Seq<char>),
> {
    match a {
        EditorAction::SaveDocument => match e.filename {
            Option::Some(p) => Some((p, join_lines(e.edit.lines, e.edit.endl))),
            Option::None => None,
        },
        EditorAction::Command(c) => spec_command_save(e, c@),
        _ => None,
    }
}

/// Dispatching a bound action in command mode: buffer-directed actions work
/// on the command buffer, saving is not available, and entering command
/// mode again does nothing.
pub open spec fn spec_apply_action_command(e: EditorView, a: EditorAction) -> EditorView {
    match a {
        EditorAction::Quit => spec_layout(
            EditorView { state: EditorState::Close, ..e },
            e.window_size,
        ),
        EditorAction::GoIntoEditMode => spec_layout(
            EditorView { state: EditorState::EditMode, ..e },
            e.window_size,
        ),
        EditorAction::GoIntoCommandMode => e,
        EditorAction::SaveDocument => e,
        EditorAction::Command(c) => spec_execute_command(e, c@),
        _ => EditorView { command: spec_buffer_action(e.command, a), ..e },
    }
}

/// The save request a bound action produces in command mode.
pub open spec fn spec_action_save_command(e: EditorView, a: EditorAction) -> Option<
    (Seq<char>, Seq<char>),
> {
    match a {
        EditorAction::Command(c) => spec_command_save(e, c@),
        _ => None,
    }
}

/// Enter in command mode: the command buffer's full content is parsed and,
/// on success, run; either way the buffer is cleared and the controller
/// returns to edit mode.  A grammar error is reported, never fatal.
pub open spec fn spec_run_command_line(e: EditorView) -> EditorView {
    let content = join_sep(e.command.lines, e.command.endl);
    let e1 = match spec_parse_command(content) {
        Ok(cv) => spec_execute_command(e, cv),
        Err(_) => e,
    };
    let e2 = EditorView { command: spec_cleared(e1.command), ..e1 };
    spec_layout(EditorView { state: EditorState::EditMode, ..e2 }, e2.window_size)
}

/// The save request running the command buffer's content produces.
pub open spec fn spec_run_command_save(e: EditorView) -> Option<(Seq<char>, Seq<char>)> {
    match spec_parse_command(join_sep(e.command.lines, e.command.endl)) {
        Ok(cv) => spec_command_save(e, cv),
        Err(_) => None,
    }
}

/// The grammar error running the command buffer's content reports.
pub open spec fn spec_run_command_error(e: EditorView) -> Option<CommandError> {
    match spec_parse_command(join_sep(e.command.lines, e.command.endl)) {
        Ok(_) => None,
        Err(er) => Some(er),
    }
}

/// What a mouse action does to the edit buffer: the wheel moves the cursor
/// a line at a time, a primary-button press moves it by the click's device
/// coordinates, clamped to the document.
pub open spec fn spec_mouse_edit(b: BufferView, m: MouseEvent) -> BufferView {
    match m {
        MouseEvent::ScrollUp => spec_move_up(b),
        MouseEvent::ScrollDown => spec_move_down(b),
        MouseEvent::LeftPress(p) => spec_move_cursor(
            b,
            PosView {
                x: crate::buffer::sat_add_usize(b.cursor.x, p@.x),
                y: crate::buffer::sat_add_usize(b.cursor.y, p@.y),
            },
        ),
    }
}

/// The editor controller.
#[derive(Debug, Clone)]
pub struct Editor {
    window_size: Pos,
    edit_buffer: Buffer,
    state: EditorState,
    config: Config,
    filename: Option<String>,
    last_keypress: String,
    need_full_clear: bool,
    command_buffer: Buffer,
}

impl View for Editor {
    type V = EditorView;

    closed spec fn view(&self) -> EditorView {
        EditorView {
            window_size: self.window_size@,
            edit: self.edit_buffer@,
            command: self.command_buffer@,
            state: self.state,
            config: self.config@,
            filename: match self.filename {
                Option::Some(ref p) => Option::Some(p@),
                Option::None => Option::None,
            },
            last_keypress: self.last_keypress@,
            need_full_clear: self.need_full_clear,
        }
    }
}

impl Editor {
    /// Both buffers satisfy their invariant; established by the constructor
    /// and preserved by every operation.
    pub open spec fn wf(self) -> bool {
        buf_wf(self@.edit) && buf_wf(self@.command)
    }

    /// A fresh controller: empty buffers, no document path, the built-in
    /// configuration, in the `Init` state.
    pub fn new() -> (r: Editor)
        ensures
            r@.state == EditorState::Init,
            r@.window_size == (PosView { x: 0, y: 0 }),
            r@.edit == spec_fresh_buffer(Seq::<Seq<char>>::empty()),
            r@.command == spec_fresh_buffer(Seq::<Seq<char>>::empty()),
            r@.filename is None,
            r@.last_keypress == Seq::<char>::empty(),
            !r@.need_full_clear,
            r@.config.edit_keybindings == crate::config::default_edit_bindings(),
            r@.config.command_keybindings == crate::config::default_command_bindings(),
            r.wf(),
    {
        Editor {
            window_size: Pos::default(),
            edit_buffer: Buffer::new(),
            state: EditorState::Init,
            config: Config::default(),
            filename: None,
            last_keypress: String::new(),
            need_full_clear: false,
            command_buffer: Buffer::new(),
        }
    }

    /// Whether the controller has reached its terminal state and the run
    /// loop must exit.
    pub fn is_done(&self) -> (r: bool)
        ensures
            r == (self@.state == EditorState::Close),
    {
        self.state == EditorState::Close
    }

    /// Install a configuration value.
    pub fn set_config(&mut self, config: Config)
        ensures
            final(self)@ == (EditorView { config: config@, ..old(self)@ }),
            old(self).wf() ==> final(self).wf(),
    {
        self.config = config;
    }

    /// Open a document: `content` is the file's text where it could be
    /// read, nothing where it could not (which yields an empty buffer); the
    /// path becomes the document path either way.
    pub fn set_document(&mut self, path: String, content: Option<String>)
        ensures
            final(self)@ == (EditorView {
                edit: spec_fresh_buffer(
                    match content {
                        Option::Some(s) => split_lines(s@),
                        Option::None => Seq::<Seq<char>>::empty(),
                    },
                ),
                filename: Option::Some(path@),
                ..old(self)@
            }),
            old(self).wf() ==> final(self).wf(),
    {
        self.edit_buffer = match &content {
            Some(s) => Buffer::load_from_str(s.as_str()),
            None => Buffer::new(),
        };
        self.filename = Some(path);
    }

    /// Recompute both buffers' viewport sizes and screen placement for the
    /// given window size and the current state.
    pub fn update_layout(&mut self, window_size: Pos)
        ensures
            final(self)@ == spec_layout(old(self)@, window_size@),
            old(self).wf() ==> final(self).wf(),
    {
        self.window_size = window_size;
        let cmd_vs: Pos = match self.state {
            EditorState::EditMode => Pos::new(window_size.x, 0),
            EditorState::CommandMode => {
                let h = window_size.y.saturating_sub(1);
                let cl = self.command_buffer.content_lines_len();
                Pos::new(
                    window_size.x,
                    if h <= cl {
                        h
                    } else {
                        cl
                    },
                )
            },
            _ => self.command_buffer.get_viewport_size(),
        };
        self.command_buffer.set_viewport_size(cmd_vs);
        self.command_buffer.set_top_left_corner(
            Pos::new(0, window_size.y.saturating_sub(1).saturating_sub(cmd_vs.y)),
        );
        let edit_vs: Pos = match self.state {
            EditorState::EditMode => Pos::new(window_size.x, window_size.y.saturating_sub(1)),
            EditorState::CommandMode => Pos::new(
                window_size.x,
                window_size.y.saturating_sub(cmd_vs.y).saturating_sub(1),
            ),
            _ => self.edit_buffer.get_viewport_size(),
        };
        self.edit_buffer.set_viewport_size(edit_vs);
        self.need_full_clear = true;
    }

    /// Change the interaction state and recompute the layout.
    pub fn set_state(&mut self, state: EditorState)
        ensures
            final(self)@ == spec_layout(
                (EditorView { state: state, ..old(self)@ }),
                old(self)@.window_size,
            ),
            old(self).wf() ==> final(self).wf(),
    {
        self.state = state;
        let ws = self.window_size;
        self.update_layout(ws);
    }

    /// Run a parsed command; a `save_as` yields the save request for the
    /// caller to perform.
    pub fn execute_command(&mut self, command: &EditorCommand) -> (r: Option<SaveRequest>)
        ensures
            final(self)@ == spec_execute_command(old(self)@, command@),
            save_req_view(r) == spec_command_save(old(self)@, command@),
            old(self).wf() ==> final(self).wf(),
    {
        match command {
            EditorCommand::SetFilename(filename) => {
                if filename.as_str().is_empty() {
                    self.filename = None;
                } else {
                    self.filename = Some(filename.clone());
                }
                None
            },
            EditorCommand::SaveAs(filename) => {
                self.filename = Some(filename.clone());
                let content = self.edit_buffer.save_to_string();
                Some(SaveRequest { path: filename.clone(), content })
            },
        }
    }

    /// Apply a bound action in edit mode.
    fn apply_action_edit(&mut self, a: EditorAction) -> (r: EventOutcome)
        requires
            old(self).wf(),
        ensures
            final(self).wf(),
            final(self)@ == spec_apply_action_edit(old(self)@, a),
            save_req_view(r.save) == spec_action_save_edit(old(self)@, a),
            r.command_error is None,
    {
        match a {
            EditorAction::Quit => {
                self.set_state(EditorState::Close);
                EventOutcome { save: None, command_error: None }
            },
            EditorAction::MoveUp => {
                self.edit_buffer.move_up();
                EventOutcome { save: None, command_error: None }
            },
            EditorAction::MoveDown => {
                self.edit_buffer.move_down();
                EventOutcome { save: None, command_error: None }
            },
            EditorAction::MoveLeft => {
                let _ = self.edit_buffer.move_left();
                EventOutcome { save: None, command_error: None }
            },
            EditorAction::MoveRight => {
                let _ = self.edit_buffer.move_right();
                EventOutcome { save: None, command_error: None }
            },
            EditorAction::PageUp => {
                let n = self.edit_buffer.get_viewport_size().y.saturating_sub(1);
                self.edit_buffer.move_up_n(n);
                EventOutcome { save: None, command_error: None }
            },
            EditorAction::PageDown => {
                let n = self.edit_buffer.get_viewport_size().y.saturating_sub(1);
                self.edit_buffer.move_down_n(n);
                EventOutcome { save: None, command_error: None }
            },
            EditorAction::SaveDocument => {
                match &self.filename {
                    Some(p) => {
                        let path = p.clone();
                        let content = self.edit_buffer.save_to_string();
                        EventOutcome {
                            save: Some(SaveRequest { path, content }),
                            command_error: None,
                        }
                    },
                    None => {
                        self.command_buffer = Buffer::load_from_str("save_as ");
                        self.command_buffer.move_line_end();
                        self.set_state(EditorState::CommandMode);
                        EventOutcome { save: None, command_error: None }
                    },
                }
            },
            EditorAction::DeleteCharBack => {
                let _ = self.edit_buffer.delete_n_chars_back_from_cursor(1);
                EventOutcome { save: None, command_error: None }
            },
            EditorAction::DeleteCharFront => {
                let _ = self.edit_buffer.delete_n_chars_front_from_cursor(1);
                EventOutcome { save: None, command_error: None }
            },
            EditorAction::DeleteAll => {
                self.edit_buffer.empty_content();
                EventOutcome { save: None, command_error: None }
            },
            EditorAction::GoIntoCommandMode => {
                self.set_state(EditorState::CommandMode);
                EventOutcome { save: None, command_error: None }
            },
            EditorAction::GoIntoEditMode => {
                EventOutcome { save: None, command_error: None }
            },
            EditorAction::Command(cmd) => {
                let save = self.execute_command(&cmd);
                EventOutcome { save, command_error: None }
            },
        }
    }

    /// Apply a bound action in command mode.
    fn apply_action_command(&mut self, a: EditorAction) -> (r: EventOutcome)
        requires
            old(self).wf(),
        ensures
            final(self).wf(),
            final(self)@ == spec_apply_action_command(old(self)@, a),
            save_req_view(r.save) == spec_action_save_command(old(self)@, a),
            r.command_error is None,
    {
        match a {
            EditorAction::Quit => {
                self.set_state(EditorState::Close);
                EventOutcome { save: None, command_error: None }
            },
            EditorAction::MoveUp => {
                self.command_buffer.move_up();
                EventOutcome { save: None, command_error: None }
            },
            EditorAction::MoveDown => {
                self.command_buffer.move_down();
                EventOutcome { save: None, command_error: None }
            },
            EditorAction::MoveLeft => {
                let _ = self.command_buffer.move_left();
                EventOutcome { save: None, command_error: None }
            },
            EditorAction::MoveRight => {
                let _ = self.command_buffer.move_right();
                EventOutcome { save: None, command_error: None }
            },
            EditorAction::PageUp => {
                let n = self.command_buffer.get_viewport_size().y.saturating_sub(1);
                self.command_buffer.move_up_n(n);
                EventOutcome { save: None, command_error: None }
            },
            EditorAction::PageDown => {
                let n = self.command_buffer.get_viewport_size().y.saturating_sub(1);
                self.command_buffer.move_down_n(n);
                EventOutcome { save: None, command_error: None }
            },
            EditorAction::SaveDocument => {
                EventOutcome { save: None, command_error: None }
            },
            EditorAction::DeleteCharBack => {
                let _ = self.command_buffer.delete_n_chars_back_from_cursor(1);
                EventOutcome { save: None, command_error: None }
            },
            EditorAction::DeleteCharFront => {
                let _ = self.command_buffer.delete_n_chars_front_from_cursor(1);
                EventOutcome { save: None, command_error: None }
            },
            EditorAction::DeleteAll => {
                self.command_buffer.empty_content();
                EventOutcome { save: None, command_error: None }
            },
            EditorAction::GoIntoCommandMode => {
                EventOutcome { save: None, command_error: None }
            },
            EditorAction::GoIntoEditMode => {
                self.set_state(EditorState::EditMode);
                EventOutcome { save: None, command_error: None }
            },
            EditorAction::Command(cmd) => {
                let save = self.execute_command(&cmd);
                EventOutcome { save, command_error: None }
            },
        }
    }

    /// Parse and run the command buffer's full content, then clear it and
    /// return to edit mode.  A grammar error is reported in the outcome and
    /// never terminates the controller.
    fn run_command_line(&mut self) -> (r: EventOutcome)
        requires
            old(self).wf(),
        ensures
            final(self).wf(),
            final(self)@ == spec_run_command_line(old(self)@),
            save_req_view(r.save) == spec_run_command_save(old(self)@),
            r.command_error == spec_run_command_error(old(self)@),
    {
        let content = self.command_buffer.get_contents();
        let outcome = match crate::command::parse_command(content.as_str()) {
            Ok(cmd) => {
                let save = self.execute_command(&cmd);
                EventOutcome { save, command_error: None }
            },
            Err(e) => EventOutcome { save: None, command_error: Some(e) },
        };
        self.command_buffer.empty_content();
        self.set_state(EditorState::EditMode);
        outcome
    }

    /// Dispatch a key press in edit mode: a bound chord runs its action; an
    /// unbound Enter splits the line; any other unbound key inserts its
    /// text.
    fn process_key_edit_mode(&mut self, k: KeyEvent) -> (r: EventOutcome)
        requires
            old(self).wf(),
        ensures
            final(self).wf(),
            ({
                let e1 = EditorView { last_keypress: k.chord@, ..old(self)@ };
                match kb_find(old(self)@.config.edit_keybindings, k.chord@) {
                    Some(a) => final(self)@ == spec_apply_action_edit(e1, a) && save_req_view(
                        r.save,
                    ) == spec_action_save_edit(e1, a) && r.command_error is None,
                    None => match k.key {
                        KeyInput::Enter => final(self)@ == (EditorView {
                            edit: spec_split_line(e1.edit),
                            ..e1
                        }) && r.save is None && r.command_error is None,
                        KeyInput::Text(t) => final(self)@ == (EditorView {
                            edit: spec_insert_text(e1.edit, t@),
                            ..e1
                        }) && r.save is None && r.command_error is None,
                    },
                }
            }),
    {
        self.last_keypress = k.chord.clone();
        let found = lookup_binding(&self.config.edit_keybindings, &k.chord);
        match found {
            Some(a) => self.apply_action_edit(a),
            None => match k.key {
                KeyInput::Enter => {
                    let _ = self.edit_buffer.add_line_at_cursor();
                    EventOutcome { save: None, command_error: None }
                },
                KeyInput::Text(t) => {
                    let _ = self.edit_buffer.add_str_at_cursor(t.as_str());
                    EventOutcome { save: None, command_error: None }
                },
            },
        }
    }

    /// Dispatch a key press in command mode: a bound chord runs its action;
    /// an unbound Enter runs the command buffer's content; any other
    /// unbound key inserts its text into the command buffer.
    fn process_key_command_mode(&mut self, k: KeyEvent) -> (r: EventOutcome)
        requires
            old(self).wf(),
        ensures
            final(self).wf(),
            ({
                let e1 = EditorView { last_keypress: k.chord@, ..old(self)@ };
                match kb_find(old(self)@.config.command_keybindings, k.chord@) {
                    Some(a) => final(self)@ == spec_apply_action_command(e1, a) && save_req_view(
                        r.save,
                    ) == spec_action_save_command(e1, a) && r.command_error is None,
                    None => match k.key {
                        KeyInput::Enter => final(self)@ == spec_run_command_line(e1)
                            && save_req_view(r.save) == spec_run_command_save(e1)
                            && r.command_error == spec_run_command_error(e1),
                        KeyInput::Text(t) => final(self)@ == (EditorView {
                            command: spec_insert_text(e1.command, t@),
                            ..e1
                        }) && r.save is None && r.command_error is None,
                    },
                }
            }),
    {
        self.last_keypress = k.chord.clone();
        let found = lookup_binding(&self.config.command_keybindings, &k.chord);
        match found {
            Some(a) => self.apply_action_command(a),
            None => match k.key {
                KeyInput::Enter => self.run_command_line(),
                KeyInput::Text(t) => {
                    let _ = self.command_buffer.add_str_at_cursor(t.as_str());
                    EventOutcome { save: None, command_error: None }
                },
            },
        }
    }

    /// Dispatch a mouse action in edit mode.
    fn process_mouse_edit_mode(&mut self, m: MouseEvent)
        requires
            old(self).wf(),
        ensures
            final(self).wf(),
            final(self)@ == (EditorView {
                edit: spec_mouse_edit(old(self)@.edit, m),
                ..old(self)@
            }),
    {
        match m {
            MouseEvent::ScrollDown => {
                self.edit_buffer.move_down();
            },
            MouseEvent::ScrollUp => {
                self.edit_buffer.move_up();
            },
            MouseEvent::LeftPress(p) => {
                self.edit_buffer.move_cursor_relative(p);
            },
        }
    }

    /// Route one input event: a resize recomputes the layout in any state;
    /// key presses and mouse actions go to the active mode's dispatch; in
    /// `Init` and `Close` they are ignored.
    pub fn process_event(&mut self, event: InputEvent) -> (r: EventOutcome)
        requires
            old(self).wf(),
        ensures
            final(self).wf(),
            event matches InputEvent::Resize(sz) ==> final(self)@ == spec_layout(
                old(self)@,
                sz@,
            ) && r.save is None && r.command_error is None,
            !(event matches InputEvent::Resize(_)) && (old(self)@.state == EditorState::Init
                || old(self)@.state == EditorState::Close) ==> final(self)@ == old(self)@
                && r.save is None && r.command_error is None,
            event matches InputEvent::Key(k) ==> (old(self)@.state == EditorState::EditMode
                ==> ({
                let e1 = EditorView { last_keypress: k.chord@, ..old(self)@ };
                match kb_find(old(self)@.config.edit_keybindings, k.chord@) {
                    Some(a) => final(self)@ == spec_apply_action_edit(e1, a) && save_req_view(
                        r.save,
                    ) == spec_action_save_edit(e1, a) && r.command_error is None,
                    None => match k.key {
                        KeyInput::Enter => final(self)@ == (EditorView {
                            edit: spec_split_line(e1.edit),
                            ..e1
                        }) && r.save is None && r.command_error is None,
                        KeyInput::Text(t) => final(self)@ == (EditorView {
                            edit: spec_insert_text(e1.edit, t@),
                            ..e1
                        }) && r.save is None && r.command_error is None,
                    },
                }
            })),
            event matches InputEvent::Key(k) ==> (old(self)@.state == EditorState::CommandMode
                ==> ({
                let e1 = EditorView { last_keypress: k.chord@, ..old(self)@ };
                match kb_find(old(self)@.config.command_keybindings, k.chord@) {
                    Some(a) => final(self)@ == spec_apply_action_command(e1, a) && save_req_view(
                        r.save,
                    ) == spec_action_save_command(e1, a) && r.command_error is None,
                    None => match k.key {
                        KeyInput::Enter => final(self)@ == spec_run_command_line(e1)
                            && save_req_view(r.save) == spec_run_command_save(e1)
                            && r.command_error == spec_run_command_error(e1),
                        KeyInput::Text(t) => final(self)@ == (EditorView {
                            command: spec_insert_text(e1.command, t@),
                            ..e1
                        }) && r.save is None && r.command_error is None,
                    },
                }
            })),
            event matches InputEvent::Mouse(m) ==> (old(self)@.state == EditorState::EditMode
                ==> final(self)@ == (EditorView {
                edit: spec_mouse_edit(old(self)@.edit, m),
                ..old(self)@
            }) && r.save is None && r.command_error is None),
            event matches InputEvent::Mouse(_) ==> (old(self)@.state == EditorState::CommandMode
                ==> final(self)@ == old(self)@ && r.save is None && r.command_error is None),
    {
        match event {
            InputEvent::Resize(size) => {
                self.update_layout(size);
                EventOutcome { save: None, command_error: None }
            },
            InputEvent::Key(k) => {
                match self.state {
                    EditorState::EditMode => self.process_key_edit_mode(k),
                    EditorState::CommandMode => self.process_key_command_mode(k),
                    _ => EventOutcome { save: None, command_error: None },
                }
            },
            InputEvent::Mouse(m) => {
                match self.state {
                    EditorState::EditMode => {
                        self.process_mouse_edit_mode(m);
                        EventOutcome { save: None, command_error: None }
                    },
                    _ => EventOutcome { save: None, command_error: None },
                }
            },
        }
    }

    /// The edit buffer, for rendering its viewport.
    pub fn edit_buffer(&self) -> (r: &Buffer)
        ensures
            r@ == self@.edit,
    {
        &self.edit_buffer
    }

    /// The command buffer, for rendering its viewport.
    pub fn command_buffer(&self) -> (r: &Buffer)
        ensures
            r@ == self@.command,
    {
        &self.command_buffer
    }

    pub fn state(&self) -> (r: EditorState)
        ensures
            r == self@.state,
    {
        self.state
    }

    pub fn filename(&self) -> (r: &Option<String>)
        ensures
            match r {
                Option::Some(p) => self@.filename == Option::Some(p@),
                Option::None => self@.filename is None,
            },
    {
        &self.filename
    }

    pub fn last_keypress(&self) -> (r: &String)
        ensures
            r@ == self@.last_keypress,
    {
        &self.last_keypress
    }

    pub fn window_size(&self) -> (r: Pos)
        ensures
            r@ == self@.window_size,
    {
        self.window_size
    }

    pub fn need_full_clear(&self) -> (r: bool)
        ensures
            r == self@.need_full_clear,
    {
        self.need_full_clear
    }

    pub fn config(&self) -> (r: &Config)
        ensures
            r@ == self@.config,
    {
        &self.config
    }
}

} // verus!
