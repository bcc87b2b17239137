use vstd::prelude::*;
use vstd::arithmetic::div_mod::{lemma_mod_add_multiples_vanish, lemma_mod_self_0, lemma_small_mod};
use vstd::string::*;

use crate::file_list::PanelKind;
use crate::state::{Counter, Mode};

verus! {

/// Name under which the commit-message buffer is known to the editor.
pub const SOURCE_CONTROL_BUFFER: &'static str = "[Source Control Buffer]";

/// Name under which the search buffer is known to the editor.
pub const SEARCH_BUFFER: &'static str = "[Search Buffer]";

/// A routing address of a widget.
#[derive(Clone, Copy, PartialEq, Eq, Structural, Debug)]
pub struct WidgetId(pub u64);

/// Orientation of a split.
#[derive(Clone, Copy, PartialEq, Eq, Structural, Debug)]
pub enum SplitDirection {
    Vertical,
    Horizontal,
}

/// Direction in which a split moves the focus between its panes.
#[derive(Clone, Copy, PartialEq, Eq, Structural, Debug)]
pub enum SplitMoveDirection {
    Up,
    Down,
    Right,
    Left,
}

/// Commands that the key dispatcher hands to a keyboard target.
#[derive(Clone, Copy, PartialEq, Eq, Structural, Debug)]
pub enum LapceCommand {
    SplitUp,
    SplitDown,
    SplitLeft,
    SplitRight,
    SourceControlCancel,
    SourceControlCommit,
    Up,
    Down,
    ListPrevious,
    ListNext,
    ListExpand,
    ListSelect,
}

/// Whether a keyboard target took a command.
#[derive(Clone, Copy, PartialEq, Eq, Structural, Debug)]
pub enum CommandExecuted {
    Yes,
    No,
}

/// Where an outbound command is delivered.
#[derive(Clone, Copy, PartialEq, Eq, Structural, Debug)]
pub enum Target {
    Widget(WidgetId),
    Auto,
}

/// Commands that the panel sends to the rest of the window.
#[derive(Clone, Copy, PartialEq, Eq, Structural, Debug)]
pub enum LapceUICommand {
    SplitEditorMove(SplitMoveDirection, WidgetId),
    FocusEditor,
    Focus,
}

/// An outbound command together with its address.
#[derive(Clone, Copy, PartialEq, Eq, Structural, Debug)]
pub struct UiMessage {
    pub command: LapceUICommand,
    pub target: Target,
}

/// The index one row above `k` in a list of `n` rows, wrapping to the last row.
pub open spec fn up_index(k: int, n: int) -> int {
    if n <= 0 {
        0
    } else {
        (k - 1 + n) % n
    }
}

/// The index one row below `k` in a list of `n` rows, wrapping to the first row.
pub open spec fn down_index(k: int, n: int) -> int {
    if n <= 0 {
        0
    } else {
        (k + 1) % n
    }
}

/// `files` with the staged flag of row `i` flipped.
pub open spec fn toggled(files: Seq<(String, bool)>, i: int) -> Seq<(String, bool)> {
    files.update(i, (files[i].0, !files[i].1))
}

/// Moves a list cursor one row up, wrapping; an empty list puts it at 0.
pub fn wrap_up(index: usize, len: usize) -> (r: usize)
    requires
        len == 0 || index < len,
    ensures
        r == up_index(index as int, len as int),
{
    proof {
        if len > 0 {
            if index == 0 {
                lemma_small_mod((len - 1) as nat, len as nat);
            } else {
                lemma_mod_add_multiples_vanish(index - 1, len as int);
                lemma_small_mod((index - 1) as nat, len as nat);
            }
        }
    }
    if len == 0 {
        0
    } else if index == 0 {
        len - 1
    } else {
        index - 1
    }
}

/// Moves a list cursor one row down, wrapping; an empty list puts it at 0.
pub fn wrap_down(index: usize, len: usize) -> (r: usize)
    requires
        len == 0 || index < len,
    ensures
        r == down_index(index as int, len as int),
{
    proof {
        if len > 0 && index + 1 < len {
            lemma_small_mod((index + 1) as nat, len as nat);
        } else if len > 0 {
            lemma_mod_self_0(len as int);
        }
    }
    if len == 0 {
        0
    } else if index + 1 == len {
        0
    } else {
        index + 1
    }
}

/// Whether two strings hold the same characters.
fn str_equal(a: &str, b: &str) -> (r: bool)
    ensures
        r == (a@ == b@),
{
    let n = a.unicode_len();
    if n != b.unicode_len() {
        return false;
    }
    let mut i: usize = 0;
    while i < n
        invariant
            n == a@.len(),
            n == b@.len(),
            i <= n,
            forall|j: int| 0 <= j < i ==> a@[j] == b@[j],
        decreases n - i,
    {
        if a.get_char(i) != b.get_char(i) {
            return false;
        }
        i = i + 1;
    }
    assert(a@ =~= b@);
    true
}

/// The header of a panel or of one of its sections.
#[derive(Clone, Debug)]
pub enum PanelHeaderKind {
    Hidden,
    Simple(String),
}

/// How the embedded commit-message editor is shown.
#[derive(Clone, Debug)]
pub struct EditorInput {
    pub view_id: WidgetId,
    pub placeholder: String,
    pub show_header: bool,
    pub show_gutter: bool,
    pub padding: u64,
}

/// One pane of a panel's split: its widget, its header, and its preferred
/// extent along the split, if it has one.
#[derive(Clone, Debug)]
pub struct PanelSection {
    pub id: WidgetId,
    pub header: PanelHeaderKind,
    pub extent: Option<u64>,
}

/// The composed panel: a header above a split of sections.
#[derive(Clone, Debug)]
pub struct PanelLayout {
    pub kind: PanelKind,
    pub widget_id: WidgetId,
    pub split_id: WidgetId,
    pub split_direction: SplitDirection,
    pub header: PanelHeaderKind,
    pub input: EditorInput,
    pub sections: Vec<PanelSection>,
}

/// A header that shows `text`.
pub open spec fn simple_header(h: PanelHeaderKind, text: Seq<char>) -> bool {
    match h {
        PanelHeaderKind::Simple(s) => s@ == text,
        PanelHeaderKind::Hidden => false,
    }
}

/// Preferred extent of the commit-message input along the panel's split.
pub const INPUT_EXTENT: u64 = 300;

/// Padding around the commit-message input.
pub const INPUT_PADDING: u64 = 10;

/// The state of the source control panel.
#[derive(Clone)]
pub struct SourceControlData {
    pub active: WidgetId,
    pub widget_id: WidgetId,
    pub split_id: WidgetId,
    pub split_direction: SplitDirection,
    pub file_list_id: WidgetId,
    pub file_list_index: usize,
    pub editor_view_id: WidgetId,
    /// Files with uncommitted changes: path, and whether it is staged.
    pub diff_files: Vec<(String, bool)>,
}

impl SourceControlData {
    /// The cursor lies within the list whenever the list is non-empty.
    pub open spec fn index_in_range(&self) -> bool {
        self.diff_files@.len() == 0 || self.file_list_index < self.diff_files@.len()
    }

    /// The focused sub-widget is the commit-message input or the file list.
    pub open spec fn active_known(&self) -> bool {
        self.active == self.editor_view_id || self.active == self.file_list_id
    }

    pub open spec fn wf(&self) -> bool {
        self.index_in_range() && self.active_known()
    }

    /// Every field but the cursor agrees.
    pub open spec fn same_but_index(&self, o: &Self) -> bool {
        &&& self.active == o.active
        &&& self.widget_id == o.widget_id
        &&& self.split_id == o.split_id
        &&& self.split_direction == o.split_direction
        &&& self.file_list_id == o.file_list_id
        &&& self.editor_view_id == o.editor_view_id
        &&& self.diff_files@ == o.diff_files@
    }

    /// Every field but the focused sub-widget agrees.
    pub open spec fn same_but_active(&self, o: &Self) -> bool {
        &&& self.widget_id == o.widget_id
        &&& self.split_id == o.split_id
        &&& self.split_direction == o.split_direction
        &&& self.file_list_id == o.file_list_id
        &&& self.file_list_index == o.file_list_index
        &&& self.editor_view_id == o.editor_view_id
        &&& self.diff_files@ == o.diff_files@
    }

    /// Every field but the file list agrees.
    pub open spec fn same_but_files(&self, o: &Self) -> bool {
        &&& self.active == o.active
        &&& self.widget_id == o.widget_id
        &&& self.split_id == o.split_id
        &&& self.split_direction == o.split_direction
        &&& self.file_list_id == o.file_list_id
        &&& self.file_list_index == o.file_list_index
        &&& self.editor_view_id == o.editor_view_id
    }

    /// A fresh panel whose four identifiers are the next four values of `ids`.
    pub fn new(ids: &mut Counter) -> (s: Self)
        requires
            old(ids).value() <= u64::MAX - 4,
        ensures
            s.wf(),
            s.file_list_id == WidgetId(old(ids).value()),
            s.editor_view_id == WidgetId((old(ids).value() + 1) as u64),
            s.widget_id == WidgetId((old(ids).value() + 2) as u64),
            s.split_id == WidgetId((old(ids).value() + 3) as u64),
            final(ids).value() == old(ids).value() + 4,
            s.active == s.editor_view_id,
            s.split_direction == SplitDirection::Horizontal,
            s.file_list_index == 0,
            s.diff_files@.len() == 0,
    {
        let file_list_id = WidgetId(ids.next());
        let editor_view_id = WidgetId(ids.next());
        let widget_id = WidgetId(ids.next());
        let split_id = WidgetId(ids.next());
        SourceControlData {
            active: editor_view_id,
            widget_id,
            editor_view_id,
            file_list_id,
            file_list_index: 0,
            split_id,
            split_direction: SplitDirection::Horizontal,
            diff_files: Vec::new(),
        }
    }

    /// Composes the panel: a "Source Control" header over a split of the
    /// commit-message input and the "Changes" file list.
    pub fn new_panel(&self) -> (r: PanelLayout)
        ensures
            r.kind == PanelKind::SourceControl,
            r.widget_id == self.widget_id,
            r.split_id == self.split_id,
            r.split_direction == self.split_direction,
            simple_header(r.header, "Source Control"@),
            r.input.view_id == self.editor_view_id,
            r.input.placeholder@ == "Commit Message"@,
            !r.input.show_header,
            !r.input.show_gutter,
            r.input.padding == INPUT_PADDING,
            r.sections@.len() == 2,
            r.sections@[0].id == self.editor_view_id,
            r.sections@[0].header is Hidden,
            r.sections@[0].extent == Some(INPUT_EXTENT),
            r.sections@[1].id == self.file_list_id,
            simple_header(r.sections@[1].header, "Changes"@),
            r.sections@[1].extent == None::<u64>,
    {
        let input = EditorInput {
            view_id: self.editor_view_id,
            placeholder: String::from_str("Commit Message"),
            show_header: false,
            show_gutter: false,
            padding: INPUT_PADDING,
        };
        let mut sections: Vec<PanelSection> = Vec::new();
        sections.push(
            PanelSection {
                id: self.editor_view_id,
                header: PanelHeaderKind::Hidden,
                extent: Some(INPUT_EXTENT),
            },
        );
        sections.push(
            PanelSection {
                id: self.file_list_id,
                header: PanelHeaderKind::Simple(String::from_str("Changes")),
                extent: None,
            },
        );
        PanelLayout {
            kind: PanelKind::SourceControl,
            widget_id: self.widget_id,
            split_id: self.split_id,
            split_direction: self.split_direction,
            header: PanelHeaderKind::Simple(String::from_str("Source Control")),
            input,
            sections,
        }
    }

    /// The list is not a text surface: it always reports normal mode.
    pub fn get_mode(&self) -> (m: Mode)
        ensures
            m == Mode::Normal,
    {
        Mode::Normal
    }

    /// Answers the key map's `when` tokens.
    pub fn check_condition(&self, condition: &str) -> (r: bool)
        ensures
            r == (condition@ == "source_control_focus"@ || (condition@ == "list_focus"@
                && self.active == self.file_list_id)),
    {
        proof {
            reveal_strlit("source_control_focus");
            reveal_strlit("list_focus");
        }
        if str_equal(condition, "source_control_focus") {
            true
        } else if str_equal(condition, "list_focus") {
            self.active == self.file_list_id
        } else {
            false
        }
    }

    /// Whether `command` is one that the panel takes.
    pub open spec fn takes(command: LapceCommand) -> bool {
        match command {
            LapceCommand::SplitUp | LapceCommand::SourceControlCancel | LapceCommand::Up
            | LapceCommand::ListPrevious | LapceCommand::Down | LapceCommand::ListNext
            | LapceCommand::ListExpand => true,
            _ => false,
        }
    }

    /// What a command does to the panel (`pre` to `post`) and to the list of
    /// outbound commands (`sent_before` to `sent`).
    pub open spec fn command_effect(
        pre: &Self,
        post: &Self,
        command: LapceCommand,
        sent_before: Seq<UiMessage>,
        sent: Seq<UiMessage>,
    ) -> bool {
        match command {
            LapceCommand::SplitUp => {
                &&& *post == *pre
                &&& sent == sent_before.push(
                    UiMessage {
                        command: LapceUICommand::SplitEditorMove(
                            SplitMoveDirection::Up,
                            pre.active,
                        ),
                        target: Target::Widget(pre.split_id),
                    },
                )
            },
            LapceCommand::SourceControlCancel => {
                &&& *post == *pre
                &&& sent == sent_before.push(
                    UiMessage { command: LapceUICommand::FocusEditor, target: Target::Auto },
                )
            },
            LapceCommand::Up | LapceCommand::ListPrevious => {
                &&& post.same_but_index(pre)
                &&& post.file_list_index == up_index(
                    pre.file_list_index as int,
                    pre.diff_files@.len() as int,
                )
                &&& sent == sent_before
            },
            LapceCommand::Down | LapceCommand::ListNext => {
                &&& post.same_but_index(pre)
                &&& post.file_list_index == down_index(
                    pre.file_list_index as int,
                    pre.diff_files@.len() as int,
                )
                &&& sent == sent_before
            },
            LapceCommand::ListExpand => {
                &&& post.same_but_files(pre)
                &&& post.diff_files@ == if pre.diff_files@.len() == 0 {
                    pre.diff_files@
                } else {
                    toggled(pre.diff_files@, pre.file_list_index as int)
                }
                &&& sent == sent_before
            },
            _ => {
                &&& *post == *pre
                &&& sent == sent_before
            },
        }
    }

    /// Executes a command of the key dispatcher. Outbound commands are pushed
    /// on `out`; the repeat count is accepted and not used.
    pub fn run_command(
        &mut self,
        command: &LapceCommand,
        count: Option<usize>,
        out: &mut Vec<UiMessage>,
    ) -> (r: CommandExecuted)
        requires
            old(self).wf(),
        ensures
            final(self).wf(),
            (r == CommandExecuted::Yes) == Self::takes(*command),
            Self::command_effect(old(self), final(self), *command, old(out)@, final(out)@),
    {
        match command {
            LapceCommand::SplitUp => {
                out.push(
                    UiMessage {
                        command: LapceUICommand::SplitEditorMove(
                            SplitMoveDirection::Up,
                            self.active,
                        ),
                        target: Target::Widget(self.split_id),
                    },
                );
            },
            LapceCommand::SourceControlCancel => {
                out.push(UiMessage { command: LapceUICommand::FocusEditor, target: Target::Auto });
            },
            LapceCommand::Up | LapceCommand::ListPrevious => {
                self.file_list_index = wrap_up(self.file_list_index, self.diff_files.len());
            },
            LapceCommand::Down | LapceCommand::ListNext => {
                self.file_list_index = wrap_down(self.file_list_index, self.diff_files.len());
            },
            LapceCommand::ListExpand => {
                if self.diff_files.len() > 0 {
                    let i = self.file_list_index;
                    let staged = self.diff_files[i].1;
                    self.diff_files[i].1 = !staged;
                }
            },
            _ => {
                return CommandExecuted::No;
            },
        }
        CommandExecuted::Yes
    }

    /// Characters typed while the list has the keyboard are dropped.
    pub fn receive_char(&mut self, c: &str)
        ensures
            *final(self) == *old(self),
    {
    }
}

} // verus!
