use vstd::prelude::*;

use crate::source_control::{
    LapceCommand, LapceUICommand, SourceControlData, UiMessage, WidgetId, toggled,
};

verus! {

/// A coordinate in logical pixels: the real value lies in `[whole, whole + 1)`,
/// and equals `whole` exactly when `fractional` is false.
#[derive(Clone, Copy, PartialEq, Eq, Structural, Debug)]
pub struct Coord {
    pub whole: i64,
    pub fractional: bool,
}

/// A pointer position relative to the top-left corner of the list.
#[derive(Clone, Copy, PartialEq, Eq, Structural, Debug)]
pub struct Point {
    pub x: Coord,
    pub y: Coord,
}

impl Coord {
    /// The coordinate is strictly greater than zero.
    pub open spec fn is_positive(&self) -> bool {
        self.whole > 0 || (self.whole == 0 && self.fractional)
    }
}

/// The row under height `y` when rows are `h` high: `floor(y / h)`, for `y > 0`.
pub open spec fn row_at(y: Coord, h: int) -> Option<int> {
    if h > 0 && y.is_positive() {
        Some(y.whole as int / h)
    } else {
        None
    }
}

/// The pointer lies in the checkbox column, which is `h` wide: `x < h`.
pub open spec fn in_checkbox(x: Coord, h: int) -> bool {
    x.whole < h
}

/// The row of `p` if it is one of `len` rows.
pub open spec fn row_hit(p: Point, h: int, len: int) -> Option<int> {
    match row_at(p.y, h) {
        Some(line) => if line < len {
            Some(line)
        } else {
            None
        },
        None => None,
    }
}

/// The row that a press at `p` arms for a toggle: a row hit in the checkbox column.
pub open spec fn press_target(p: Point, h: int, len: int) -> Option<int> {
    match row_hit(p, h, len) {
        Some(line) => if in_checkbox(p.x, h) {
            Some(line)
        } else {
            None
        },
        None => None,
    }
}

/// The cursor after a press at `p`: the row hit, else unchanged.
pub open spec fn index_after_press(index: int, p: Point, h: int, len: int) -> int {
    match row_hit(p, h, len) {
        Some(line) => line,
        None => index,
    }
}

/// The files after a release at `p` while `armed` is the row armed by the press.
pub open spec fn files_after_release(
    files: Seq<(String, bool)>,
    armed: Option<int>,
    p: Point,
    h: int,
) -> Seq<(String, bool)> {
    match press_target(p, h, files.len() as int) {
        Some(line) => if armed == Some(line) {
            toggled(files, line)
        } else {
            files
        },
        None => files,
    }
}

/// The files after pressing at `p` and releasing at `q`.
pub open spec fn files_after_click(
    files: Seq<(String, bool)>,
    p: Point,
    q: Point,
    h: int,
) -> Seq<(String, bool)> {
    files_after_release(files, press_target(p, h, files.len() as int), q, h)
}

/// The row of `y` when rows are `h` high, if it is one of `len` rows.
fn hit_row(y: Coord, h: usize, len: usize) -> (r: Option<usize>)
    ensures
        r matches Some(l) ==> l < len,
        (match r {
            Some(l) => Some(l as int),
            None => None,
        }) == (match row_at(y, h as int) {
            Some(line) => if line < len {
                Some(line)
            } else {
                None
            },
            None => None,
        }),
{
    if h == 0 {
        return None;
    }
    if y.whole > 0 || (y.whole == 0 && y.fractional) {
        let line = (y.whole as u64) / (h as u64);
        if line < len as u64 {
            Some(line as usize)
        } else {
            None
        }
    } else {
        None
    }
}

/// Whether `x` lies in the checkbox column of rows `h` high.
fn checkbox_column(x: Coord, h: usize) -> (r: bool)
    ensures
        r == in_checkbox(x, h as int),
{
    x.whole < 0 || (x.whole as u64) < (h as u64)
}

/// Where the keyboard focus of a tab lies.
#[derive(Clone, Copy, PartialEq, Eq, Structural, Debug)]
pub enum FocusArea {
    Editor,
    Panel(PanelKind),
}

/// The side panels of a tab.
#[derive(Clone, Copy, PartialEq, Eq, Structural, Debug)]
pub enum PanelKind {
    FileExplorer,
    SourceControl,
    Plugin,
    Terminal,
    Search,
    Problem,
}

/// The focus state of the tab that holds the panel.
#[derive(Clone, Copy, PartialEq, Eq, Structural, Debug)]
pub struct TabFocus {
    pub focus: WidgetId,
    pub focus_area: FocusArea,
}

/// Input that reaches the file list.
#[derive(Clone, Copy, PartialEq, Eq, Structural, Debug)]
pub enum FileListEvent {
    MouseMove(Point),
    MouseDown(Point),
    MouseUp(Point),
    /// A key press that the key map resolved to a command, with its repeat count.
    KeyDown(LapceCommand, Option<usize>),
    /// An outbound command delivered to the list.
    Command(LapceUICommand),
    Other,
}

/// Changes in a widget's standing with the toolkit.
#[derive(Clone, Copy, PartialEq, Eq, Structural, Debug)]
pub enum LifeCycle {
    FocusChanged(bool),
    HotChanged(bool),
    WidgetAdded,
    Other,
}

/// What the toolkit is asked to do after an event.
#[derive(Clone, Copy, PartialEq, Eq, Structural, Debug)]
pub struct EventResponse {
    pub handled: bool,
    pub pointer_cursor: bool,
    pub request_focus: bool,
}

/// The list of changed files, with checkboxes that stage them.
pub struct SourceControlFileList {
    widget_id: WidgetId,
    mouse_down: Option<usize>,
}

impl SourceControlFileList {
    pub closed spec fn spec_id(&self) -> WidgetId {
        self.widget_id
    }

    /// The row armed by a press in the checkbox column, while the button is down.
    pub closed spec fn armed(&self) -> Option<usize> {
        self.mouse_down
    }

    pub open spec fn armed_int(&self) -> Option<int> {
        match self.armed() {
            Some(l) => Some(l as int),
            None => None,
        }
    }

    pub fn new(widget_id: WidgetId) -> (r: Self)
        ensures
            r.spec_id() == widget_id,
            r.armed() == None::<usize>,
    {
        SourceControlFileList { widget_id, mouse_down: None }
    }

    pub fn id(&self) -> (r: Option<WidgetId>)
        ensures
            r == Some(self.spec_id()),
    {
        Some(self.widget_id)
    }

    /// The row armed by the last press, if it has not been released.
    pub fn mouse_down(&self) -> (r: Option<usize>)
        ensures
            r == self.armed(),
    {
        self.mouse_down
    }

    /// Whether a lifecycle change asks for a repaint: a change of focus
    /// shows or hides the selection background.
    pub fn lifecycle(&self, event: &LifeCycle) -> (repaint: bool)
        ensures
            repaint == (*event is FocusChanged),
    {
        match event {
            LifeCycle::FocusChanged(_) => true,
            _ => false,
        }
    }

    /// The height of the list's content: one row of `line_height` per file.
    pub fn layout_height(&self, line_height: usize, data: &SourceControlData) -> (r: u128)
        ensures
            r == line_height * data.diff_files@.len(),
    {
        let h = line_height as u128;
        let n = data.diff_files.len() as u128;
        assert(h * n <= u64::MAX * u64::MAX) by (nonlinear_arith)
            requires
                h <= u64::MAX,
                n <= u64::MAX,
        ;
        h * n
    }

    /// Makes the list the focused sub-widget of the panel and of the tab.
    pub fn request_focus(&self, tab: &mut TabFocus, data: &mut SourceControlData)
        ensures
            final(data).active == self.spec_id(),
            final(data).same_but_active(old(data)),
            final(tab).focus == self.spec_id(),
            final(tab).focus_area == FocusArea::Panel(PanelKind::SourceControl),
    {
        data.active = self.widget_id;
        tab.focus_area = FocusArea::Panel(PanelKind::SourceControl);
        tab.focus = self.widget_id;
    }

    /// A primary-button press at `p`: selects the row hit and, in the checkbox
    /// column, arms it for a toggle; then takes the focus.
    pub fn mouse_press(
        &mut self,
        p: Point,
        line_height: usize,
        tab: &mut TabFocus,
        data: &mut SourceControlData,
    )
        requires
            old(data).index_in_range(),
        ensures
            final(self).spec_id() == old(self).spec_id(),
            final(self).armed_int() == press_target(
                p,
                line_height as int,
                old(data).diff_files@.len() as int,
            ),
            final(self).armed() matches Some(l) ==> l < old(data).diff_files@.len(),
            final(data).index_in_range(),
            final(data).file_list_index == index_after_press(
                old(data).file_list_index as int,
                p,
                line_height as int,
                old(data).diff_files@.len() as int,
            ),
            final(data).diff_files@ == old(data).diff_files@,
            final(data).active == old(self).spec_id(),
            final(data).widget_id == old(data).widget_id,
            final(data).split_id == old(data).split_id,
            final(data).split_direction == old(data).split_direction,
            final(data).file_list_id == old(data).file_list_id,
            final(data).editor_view_id == old(data).editor_view_id,
            final(tab).focus == old(self).spec_id(),
            final(tab).focus_area == FocusArea::Panel(PanelKind::SourceControl),
    {
        self.mouse_down = None;
        match hit_row(p.y, line_height, data.diff_files.len()) {
            Some(line) => {
                data.file_list_index = line;
                if checkbox_column(p.x, line_height) {
                    self.mouse_down = Some(line);
                }
            },
            None => {},
        }
        self.request_focus(tab, data);
    }

    /// A primary-button release at `p`: toggles the armed row if the release
    /// lands on it in the checkbox column; always disarms.
    pub fn mouse_release(&mut self, p: Point, line_height: usize, data: &mut SourceControlData)
        ensures
            final(self).spec_id() == old(self).spec_id(),
            final(self).armed() == None::<usize>,
            final(data).same_but_files(old(data)),
            final(data).diff_files@ == files_after_release(
                old(data).diff_files@,
                old(self).armed_int(),
                p,
                line_height as int,
            ),
    {
        match hit_row(p.y, line_height, data.diff_files.len()) {
            Some(line) => {
                if checkbox_column(p.x, line_height) {
                    match self.mouse_down {
                        Some(down) => {
                            if down == line {
                                let staged = data.diff_files[line].1;
                                data.diff_files[line].1 = !staged;
                            }
                        },
                        None => {},
                    }
                }
            },
            None => {},
        }
        self.mouse_down = None;
    }

    /// The effect of an event on the list, the panel, the tab's focus and the
    /// outbound commands.
    pub open spec fn event_effect(
        pre: &Self,
        post: &Self,
        ev: FileListEvent,
        h: int,
        tab_pre: TabFocus,
        tab: TabFocus,
        data_pre: &SourceControlData,
        data: &SourceControlData,
        sent_before: Seq<UiMessage>,
        sent: Seq<UiMessage>,
        r: EventResponse,
    ) -> bool {
        let len = data_pre.diff_files@.len() as int;
        let focused = {
            &&& data.active == pre.spec_id()
            &&& tab.focus == pre.spec_id()
            &&& tab.focus_area == FocusArea::Panel(PanelKind::SourceControl)
        };
        &&& post.spec_id() == pre.spec_id()
        &&& match ev {
            FileListEvent::MouseMove(_) => {
                &&& r == EventResponse { handled: true, pointer_cursor: true, request_focus: false }
                &&& post.armed() == pre.armed()
                &&& *data == *data_pre
                &&& tab == tab_pre
                &&& sent == sent_before
            },
            FileListEvent::MouseDown(p) => {
                &&& r == EventResponse { handled: true, pointer_cursor: false, request_focus: true }
                &&& post.armed_int() == press_target(p, h, len)
                &&& data.file_list_index == index_after_press(
                    data_pre.file_list_index as int,
                    p,
                    h,
                    len,
                )
                &&& data.diff_files@ == data_pre.diff_files@
                &&& focused
                &&& sent == sent_before
            },
            FileListEvent::MouseUp(p) => {
                &&& r == EventResponse { handled: true, pointer_cursor: false, request_focus: false }
                &&& post.armed() == None::<usize>
                &&& data.same_but_files(data_pre)
                &&& data.diff_files@ == files_after_release(
                    data_pre.diff_files@,
                    pre.armed_int(),
                    p,
                    h,
                )
                &&& tab == tab_pre
                &&& sent == sent_before
            },
            FileListEvent::KeyDown(command, _) => {
                &&& r == EventResponse { handled: true, pointer_cursor: false, request_focus: false }
                &&& post.armed() == pre.armed()
                &&& SourceControlData::command_effect(data_pre, data, command, sent_before, sent)
                &&& tab == tab_pre
            },
            FileListEvent::Command(LapceUICommand::Focus) => {
                &&& r == EventResponse { handled: true, pointer_cursor: false, request_focus: true }
                &&& post.armed() == pre.armed()
                &&& data.same_but_active(data_pre)
                &&& focused
                &&& sent == sent_before
            },
            _ => {
                &&& r == EventResponse { handled: false, pointer_cursor: false, request_focus: false }
                &&& post.armed() == pre.armed()
                &&& *data == *data_pre
                &&& tab == tab_pre
                &&& sent == sent_before
            },
        }
    }

    /// Handles one input event of the list. The list must be the panel's file
    /// list, so that taking the focus keeps the panel's focus on one of its
    /// two sub-widgets.
    pub fn event(
        &mut self,
        ev: &FileListEvent,
        line_height: usize,
        tab: &mut TabFocus,
        data: &mut SourceControlData,
        out: &mut Vec<UiMessage>,
    ) -> (r: EventResponse)
        requires
            old(data).wf(),
            old(self).spec_id() == old(data).file_list_id,
        ensures
            final(data).wf(),
            Self::event_effect(
                old(self),
                final(self),
                *ev,
                line_height as int,
                *old(tab),
                *final(tab),
                old(data),
                final(data),
                old(out)@,
                final(out)@,
                r,
            ),
    {
        match ev {
            FileListEvent::MouseMove(_) => {
                EventResponse { handled: true, pointer_cursor: true, request_focus: false }
            },
            FileListEvent::MouseUp(p) => {
                self.mouse_release(*p, line_height, data);
                EventResponse { handled: true, pointer_cursor: false, request_focus: false }
            },
            FileListEvent::MouseDown(p) => {
                self.mouse_press(*p, line_height, tab, data);
                EventResponse { handled: true, pointer_cursor: false, request_focus: true }
            },
            FileListEvent::KeyDown(command, count) => {
                data.run_command(command, *count, out);
                EventResponse { handled: true, pointer_cursor: false, request_focus: false }
            },
            FileListEvent::Command(LapceUICommand::Focus) => {
                self.request_focus(tab, data);
                EventResponse { handled: true, pointer_cursor: false, request_focus: true }
            },
            _ => EventResponse { handled: false, pointer_cursor: false, request_focus: false },
        }
    }
}

} // verus!
