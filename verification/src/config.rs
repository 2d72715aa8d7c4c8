//! The editor's configuration: colors for the three screen zones, the
//! chord-to-action keybinding tables for the two modes, and input-feature
//! flags.  A configuration is an explicit value handed to the editor; there
//! is no ambient lookup.

use crate::color::Color;
use crate::editor::EditorAction;
use vstd::prelude::*;

verus! {

/// A background/foreground color pair for one screen zone.
#[derive(Clone, Copy, Debug, PartialEq, Eq, Structural)]
pub struct ColorPair {
    pub bg: Color,
    pub fg: Color,
}

/// The editor's configuration.
#[derive(Debug, Clone)]
pub struct Config {
    pub color_edit_zone: ColorPair,
    pub color_status_bar: ColorPair,
    pub color_command_zone: ColorPair,
    /// Chord-to-action bindings consulted in edit mode, in lookup order.
    pub edit_keybindings: Vec<(String, EditorAction)>,
    /// Chord-to-action bindings consulted in command mode, in lookup order.
    pub command_keybindings: Vec<(String, EditorAction)>,
    pub use_mouse: bool,
    pub use_paste: bool,
}

/// The mathematical view of a [`Config`].
pub ghost struct ConfigView {
    pub color_edit_zone: ColorPair,
    pub color_status_bar: ColorPair,
    pub color_command_zone: ColorPair,
    pub edit_keybindings: Seq<(Seq<char>, EditorAction)>,
    pub command_keybindings: Seq<(Seq<char>, EditorAction)>,
    pub use_mouse: bool,
    pub use_paste: bool,
}

/// The view of a binding table: each chord as its character sequence, with
/// its action.
pub open spec fn kb_view(bs: Seq<(String, EditorAction)>) -> Seq<(Seq<char>, EditorAction)> {
    bs.map_values(|p: (String, EditorAction)| (p.0@, p.1))
}

impl View for Config {
    type V = ConfigView;

    open spec fn view(&self) -> ConfigView {
        ConfigView {
            color_edit_zone: self.color_edit_zone,
            color_status_bar: self.color_status_bar,
            color_command_zone: self.color_command_zone,
            edit_keybindings: kb_view(self.edit_keybindings@),
            command_keybindings: kb_view(self.command_keybindings@),
            use_mouse: self.use_mouse,
            use_paste: self.use_paste,
        }
    }
}

/// The action bound to `chord`: that of the first pair whose chord matches,
/// or none.
pub open spec fn kb_find(bs: Seq<(Seq<char>, EditorAction)>, chord: Seq<char>) -> Option<
    EditorAction,
>
    decreases bs.len(),
{
    if bs.len() == 0 {
        None
    } else if bs[0].0 == chord {
        Some(bs[0].1)
    } else {
        kb_find(bs.drop_first(), chord)
    }
}

/// Look `chord` up in a binding table: the action of the first pair whose
/// chord matches, or none.
pub fn lookup_binding(bindings: &Vec<(String, EditorAction)>, chord: &String) -> (r: Option<
    EditorAction,
>)
    ensures
        r == kb_find(kb_view(bindings@), chord@),
{
    let n = bindings.len();
    let mut i: usize = 0;
    proof {
        assert(kb_view(bindings@).skip(0) =~= kb_view(bindings@));
    }
    while i < n
        invariant
            i <= n,
            n == bindings@.len(),
            kb_find(kb_view(bindings@), chord@) == kb_find(
                kb_view(bindings@).skip(i as int),
                chord@,
            ),
        decreases n - i,
    {
        if bindings[i].0.eq(chord) {
            proof {
                assert(kb_view(bindings@).skip(i as int)[0] == (bindings@[i as int].0@, bindings@[
                    i as int].1));
            }
            return Some(crate::editor::clone_action(&bindings[i].1));
        }
        proof {
            assert(kb_view(bindings@).skip(i as int)[0] == (bindings@[i as int].0@, bindings@[
                i as int].1));
            assert(kb_view(bindings@).skip(i as int).drop_first() =~= kb_view(bindings@).skip(
                i + 1,
            ));
        }
        i = i + 1;
    }
    proof {
        assert(kb_view(bindings@).skip(n as int) =~= Seq::<(Seq<char>, EditorAction)>::empty());
    }
    None
}

/// The default edit-mode bindings.
pub open spec fn default_edit_bindings() -> Seq<(Seq<char>, EditorAction)> {
    seq![
        ("Controlq"@, EditorAction::Quit),
        ("Up"@, EditorAction::MoveUp),
        ("Down"@, EditorAction::MoveDown),
        ("Left"@, EditorAction::MoveLeft),
        ("Right"@, EditorAction::MoveRight),
        ("PageUp"@, EditorAction::PageUp),
        ("PageDown"@, EditorAction::PageDown),
        ("Backspace"@, EditorAction::DeleteCharBack),
        ("Delete"@, EditorAction::DeleteCharFront),
        ("Controls"@, EditorAction::SaveDocument),
        ("Controld"@, EditorAction::DeleteAll),
        ("Esc"@, EditorAction::GoIntoCommandMode),
    ]
}

/// The default command-mode bindings.
pub open spec fn default_command_bindings() -> Seq<(Seq<char>, EditorAction)> {
    seq![
        ("Controlq"@, EditorAction::Quit),
        ("Up"@, EditorAction::MoveUp),
        ("Down"@, EditorAction::MoveDown),
        ("Left"@, EditorAction::MoveLeft),
        ("Right"@, EditorAction::MoveRight),
        ("PageUp"@, EditorAction::PageUp),
        ("PageDown"@, EditorAction::PageDown),
        ("Backspace"@, EditorAction::DeleteCharBack),
        ("Delete"@, EditorAction::DeleteCharFront),
        ("Controld"@, EditorAction::DeleteAll),
        ("Esc"@, EditorAction::GoIntoEditMode),
    ]
}

impl Default for Config {
    /// The built-in configuration: arrow, paging, deletion and mode-switch
    /// keys bound in both modes, mouse and paste enabled, and plain
    /// black-on-white colors with an inverted status bar.
    fn default() -> (r: Config)
        ensures
            r@.edit_keybindings == default_edit_bindings(),
            r@.command_keybindings == default_command_bindings(),
            r@.use_mouse,
            r@.use_paste,
    {
        let mut edit_kb: Vec<(String, EditorAction)> = Vec::new();
        edit_kb.push((String::from_str("Controlq"), EditorAction::Quit));
        edit_kb.push((String::from_str("Up"), EditorAction::MoveUp));
        edit_kb.push((String::from_str("Down"), EditorAction::MoveDown));
        edit_kb.push((String::from_str("Left"), EditorAction::MoveLeft));
        edit_kb.push((String::from_str("Right"), EditorAction::MoveRight));
        edit_kb.push((String::from_str("PageUp"), EditorAction::PageUp));
        edit_kb.push((String::from_str("PageDown"), EditorAction::PageDown));
        edit_kb.push((String::from_str("Backspace"), EditorAction::DeleteCharBack));
        edit_kb.push((String::from_str("Delete"), EditorAction::DeleteCharFront));
        edit_kb.push((String::from_str("Controls"), EditorAction::SaveDocument));
        edit_kb.push((String::from_str("Controld"), EditorAction::DeleteAll));
        edit_kb.push((String::from_str("Esc"), EditorAction::GoIntoCommandMode));
        let mut command_kb: Vec<(String, EditorAction)> = Vec::new();
        command_kb.push((String::from_str("Controlq"), EditorAction::Quit));
        command_kb.push((String::from_str("Up"), EditorAction::MoveUp));
        command_kb.push((String::from_str("Down"), EditorAction::MoveDown));
        command_kb.push((String::from_str("Left"), EditorAction::MoveLeft));
        command_kb.push((String::from_str("Right"), EditorAction::MoveRight));
        command_kb.push((String::from_str("PageUp"), EditorAction::PageUp));
        command_kb.push((String::from_str("PageDown"), EditorAction::PageDown));
        command_kb.push((String::from_str("Backspace"), EditorAction::DeleteCharBack));
        command_kb.push((String::from_str("Delete"), EditorAction::DeleteCharFront));
        command_kb.push((String::from_str("Controld"), EditorAction::DeleteAll));
        command_kb.push((String::from_str("Esc"), EditorAction::GoIntoEditMode));
        proof {
            assert(kb_view(edit_kb@) =~= default_edit_bindings());
            assert(kb_view(command_kb@) =~= default_command_bindings());
        }
        let white = Color { r: 255, g: 255, b: 255 };
        let black = Color { r: 0, g: 0, b: 0 };
        Config {
            color_edit_zone: ColorPair { bg: black, fg: white },
            color_status_bar: ColorPair { bg: white, fg: black },
            color_command_zone: ColorPair { bg: black, fg: white },
            edit_keybindings: edit_kb,
            command_keybindings: command_kb,
            use_mouse: true,
            use_paste: true,
        }
    }
}

} // verus!
