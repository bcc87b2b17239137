use lapce_panel::file_list::{
    Coord, FileListEvent, FocusArea, LifeCycle, PanelKind, Point, SourceControlFileList, TabFocus,
};
use lapce_panel::source_control::{
    CommandExecuted, LapceCommand, LapceUICommand, SourceControlData, SplitDirection,
    SplitMoveDirection, Target, UiMessage, WidgetId, wrap_down, wrap_up,
};
use lapce_panel::state::{Counter, Mode};

const H: usize = 20;

fn at(x: i64, y: i64) -> Point {
    Point {
        x: Coord { whole: x, fractional: false },
        y: Coord { whole: y, fractional: false },
    }
}

fn panel(files: &[(&str, bool)], index: usize) -> SourceControlData {
    let mut ids = Counter::new();
    let mut data = SourceControlData::new(&mut ids);
    data.diff_files = files.iter().map(|(p, s)| (p.to_string(), *s)).collect();
    data.file_list_index = index;
    data
}

fn abc() -> Vec<(&'static str, bool)> {
    vec![("/w/a", false), ("/w/b", false), ("/w/c", true)]
}

fn staged(data: &SourceControlData) -> Vec<bool> {
    data.diff_files.iter().map(|f| f.1).collect()
}

fn tab() -> TabFocus {
    TabFocus { focus: WidgetId(0), focus_area: FocusArea::Editor }
}

fn run(data: &mut SourceControlData, c: LapceCommand) -> (CommandExecuted, Vec<UiMessage>) {
    let mut out = Vec::new();
    let r = data.run_command(&c, None, &mut out);
    (r, out)
}

#[test]
fn test_check_condition() {
    let mut data = panel(&[], 0);
    assert!(data.check_condition("source_control_focus"));
    assert!(!data.check_condition("list_focus"));
    assert!(!data.check_condition("editor_focus"));
    assert!(!data.check_condition(""));
    data.active = data.file_list_id;
    assert!(data.check_condition("list_focus"));
    assert!(data.check_condition("source_control_focus"));
    assert!(!data.check_condition("list_focus "));
}

#[test]
fn new_panel_state() {
    let mut ids = Counter::new();
    let data = SourceControlData::new(&mut ids);
    assert_eq!(data.file_list_id, WidgetId(1));
    assert_eq!(data.editor_view_id, WidgetId(2));
    assert_eq!(data.widget_id, WidgetId(3));
    assert_eq!(data.split_id, WidgetId(4));
    assert_eq!(data.active, data.editor_view_id);
    assert_eq!(data.split_direction, SplitDirection::Horizontal);
    assert_eq!(data.file_list_index, 0);
    assert!(data.diff_files.is_empty());
    assert_eq!(ids.next(), 5);
    assert_eq!(data.get_mode(), Mode::Normal);
}

#[test]
fn expand_on_empty_list_is_executed_and_changes_nothing() {
    let mut data = panel(&[], 0);
    let (r, out) = run(&mut data, LapceCommand::ListExpand);
    assert_eq!(r, CommandExecuted::Yes);
    assert!(out.is_empty());
    assert!(data.diff_files.is_empty());
    assert_eq!(data.file_list_index, 0);
}

#[test]
fn down_moves_to_next_row() {
    let mut data = panel(&abc(), 0);
    let (r, _) = run(&mut data, LapceCommand::Down);
    assert_eq!(r, CommandExecuted::Yes);
    assert_eq!(data.file_list_index, 1);
    assert_eq!(staged(&data), vec![false, false, true]);
}

#[test]
fn down_three_times_wraps() {
    let mut data = panel(&abc(), 0);
    for _ in 0..3 {
        run(&mut data, LapceCommand::Down);
    }
    assert_eq!(data.file_list_index, 0);
}

#[test]
fn up_wraps_to_last_row_and_down_undoes_it() {
    let mut data = panel(&abc(), 0);
    run(&mut data, LapceCommand::Up);
    assert_eq!(data.file_list_index, 2);
    run(&mut data, LapceCommand::ListNext);
    assert_eq!(data.file_list_index, 0);
    run(&mut data, LapceCommand::ListPrevious);
    assert_eq!(data.file_list_index, 2);
    assert_eq!(staged(&data), vec![false, false, true]);
}

#[test]
fn movement_formulas() {
    for n in 1..6usize {
        for k in 0..n {
            assert_eq!(wrap_up(k, n), (k + n - 1) % n);
            assert_eq!(wrap_down(k, n), (k + 1) % n);
            assert_eq!(wrap_down(wrap_up(k, n), n), k);
        }
    }
    assert_eq!(wrap_up(0, 0), 0);
    assert_eq!(wrap_down(0, 0), 0);
}

#[test]
fn down_on_single_row_stays() {
    let mut data = panel(&[("/w/a", false)], 0);
    run(&mut data, LapceCommand::Down);
    assert_eq!(data.file_list_index, 0);
}

#[test]
fn expand_toggles_selected_row_only() {
    let mut data = panel(&abc(), 2);
    run(&mut data, LapceCommand::ListExpand);
    assert_eq!(staged(&data), vec![false, false, false]);
    assert_eq!(data.file_list_index, 2);
    run(&mut data, LapceCommand::ListExpand);
    assert_eq!(staged(&data), vec![false, false, true]);
}

#[test]
fn cancel_sends_focus_editor() {
    let mut data = panel(&abc(), 0);
    let (r, out) = run(&mut data, LapceCommand::SourceControlCancel);
    assert_eq!(r, CommandExecuted::Yes);
    assert_eq!(
        out,
        vec![UiMessage { command: LapceUICommand::FocusEditor, target: Target::Auto }]
    );
    assert_eq!(data.file_list_index, 0);
    assert_eq!(staged(&data), vec![false, false, true]);
}

#[test]
fn split_up_is_sent_to_the_split() {
    let mut data = panel(&abc(), 0);
    let (r, out) = run(&mut data, LapceCommand::SplitUp);
    assert_eq!(r, CommandExecuted::Yes);
    assert_eq!(
        out,
        vec![UiMessage {
            command: LapceUICommand::SplitEditorMove(SplitMoveDirection::Up, data.active),
            target: Target::Widget(data.split_id),
        }]
    );
}

#[test]
fn other_commands_are_not_executed() {
    let mut data = panel(&abc(), 1);
    for c in [LapceCommand::SplitDown, LapceCommand::ListSelect, LapceCommand::SourceControlCommit] {
        let (r, out) = run(&mut data, c);
        assert_eq!(r, CommandExecuted::No);
        assert!(out.is_empty());
    }
    assert_eq!(data.file_list_index, 1);
}

fn list_for(data: &SourceControlData) -> SourceControlFileList {
    SourceControlFileList::new(data.file_list_id)
}

#[test]
fn click_on_checkbox_toggles() {
    let mut data = panel(&abc(), 1);
    let mut list = list_for(&data);
    let mut t = tab();
    let mut out = Vec::new();
    let r = list.event(&FileListEvent::MouseDown(at(5, 30)), H, &mut t, &mut data, &mut out);
    assert!(r.handled && r.request_focus);
    assert_eq!(list.mouse_down(), Some(1));
    list.event(&FileListEvent::MouseUp(at(5, 30)), H, &mut t, &mut data, &mut out);
    assert_eq!(data.file_list_index, 1);
    assert_eq!(staged(&data), vec![false, true, true]);
    assert_eq!(list.mouse_down(), None);
    assert_eq!(data.active, data.file_list_id);
    assert_eq!(t.focus, data.file_list_id);
    assert_eq!(t.focus_area, FocusArea::Panel(PanelKind::SourceControl));
    assert!(out.is_empty());
}

#[test]
fn release_on_next_row_does_not_toggle() {
    let mut data = panel(&abc(), 2);
    let mut list = list_for(&data);
    let mut t = tab();
    let mut out = Vec::new();
    list.event(&FileListEvent::MouseDown(at(5, 10)), H, &mut t, &mut data, &mut out);
    assert_eq!(data.file_list_index, 0);
    list.event(&FileListEvent::MouseUp(at(5, 30)), H, &mut t, &mut data, &mut out);
    assert_eq!(data.file_list_index, 0);
    assert_eq!(staged(&data), vec![false, false, true]);
    assert_eq!(list.mouse_down(), None);
}

#[test]
fn release_outside_checkbox_does_not_toggle() {
    let mut data = panel(&abc(), 0);
    let mut list = list_for(&data);
    let mut t = tab();
    let mut out = Vec::new();
    list.event(&FileListEvent::MouseDown(at(5, 30)), H, &mut t, &mut data, &mut out);
    assert_eq!(list.mouse_down(), Some(1));
    list.event(&FileListEvent::MouseUp(at(25, 30)), H, &mut t, &mut data, &mut out);
    assert_eq!(staged(&data), vec![false, false, true]);
    assert_eq!(data.file_list_index, 1);
}

#[test]
fn press_outside_checkbox_selects_without_arming() {
    let mut data = panel(&abc(), 0);
    let mut list = list_for(&data);
    let mut t = tab();
    let mut out = Vec::new();
    list.event(&FileListEvent::MouseDown(at(45, 50)), H, &mut t, &mut data, &mut out);
    assert_eq!(data.file_list_index, 2);
    assert_eq!(list.mouse_down(), None);
    list.event(&FileListEvent::MouseUp(at(5, 50)), H, &mut t, &mut data, &mut out);
    assert_eq!(staged(&data), vec![false, false, true]);
}

#[test]
fn two_clicks_restore_the_flag() {
    let mut data = panel(&abc(), 0);
    let mut list = list_for(&data);
    let mut t = tab();
    let mut out = Vec::new();
    for _ in 0..2 {
        list.event(&FileListEvent::MouseDown(at(3, 45)), H, &mut t, &mut data, &mut out);
        list.event(&FileListEvent::MouseUp(at(7, 59)), H, &mut t, &mut data, &mut out);
    }
    assert_eq!(staged(&data), vec![false, false, true]);
    assert_eq!(data.file_list_index, 2);
}

#[test]
fn press_outside_rows_keeps_selection() {
    let mut data = panel(&abc(), 1);
    let mut list = list_for(&data);
    let mut t = tab();
    let mut out = Vec::new();
    list.event(&FileListEvent::MouseDown(at(5, 0)), H, &mut t, &mut data, &mut out);
    assert_eq!(data.file_list_index, 1);
    assert_eq!(list.mouse_down(), None);
    list.event(&FileListEvent::MouseDown(at(5, 60)), H, &mut t, &mut data, &mut out);
    assert_eq!(data.file_list_index, 1);
    assert_eq!(list.mouse_down(), None);
    list.event(&FileListEvent::MouseDown(at(5, -4)), H, &mut t, &mut data, &mut out);
    assert_eq!(data.file_list_index, 1);
}

#[test]
fn fraction_above_top_edge_hits_first_row() {
    let mut data = panel(&abc(), 2);
    let mut list = list_for(&data);
    let mut t = tab();
    let mut out = Vec::new();
    let p = Point {
        x: Coord { whole: 0, fractional: true },
        y: Coord { whole: 0, fractional: true },
    };
    list.event(&FileListEvent::MouseDown(p), H, &mut t, &mut data, &mut out);
    assert_eq!(data.file_list_index, 0);
    assert_eq!(list.mouse_down(), Some(0));
}

#[test]
fn release_without_press_is_dropped() {
    let mut data = panel(&abc(), 0);
    let mut list = list_for(&data);
    let mut t = tab();
    let mut out = Vec::new();
    list.event(&FileListEvent::MouseUp(at(5, 10)), H, &mut t, &mut data, &mut out);
    assert_eq!(staged(&data), vec![false, false, true]);
}

#[test]
fn key_down_runs_the_command() {
    let mut data = panel(&abc(), 0);
    let mut list = list_for(&data);
    let mut t = tab();
    let mut out = Vec::new();
    let r = list.event(&FileListEvent::KeyDown(LapceCommand::Down, Some(4)), H, &mut t, &mut data, &mut out);
    assert!(r.handled);
    assert_eq!(data.file_list_index, 1);
    list.event(&FileListEvent::KeyDown(LapceCommand::SourceControlCancel, None), H, &mut t, &mut data, &mut out);
    assert_eq!(out.len(), 1);
}

#[test]
fn move_focus_and_other_events() {
    let mut data = panel(&abc(), 0);
    let mut list = list_for(&data);
    let mut t = tab();
    let mut out = Vec::new();
    let r = list.event(&FileListEvent::MouseMove(at(1, 1)), H, &mut t, &mut data, &mut out);
    assert!(r.handled && r.pointer_cursor && !r.request_focus);
    assert_eq!(data.active, data.editor_view_id);
    let r = list.event(&FileListEvent::Command(LapceUICommand::FocusEditor), H, &mut t, &mut data, &mut out);
    assert!(!r.handled);
    let r = list.event(&FileListEvent::Other, H, &mut t, &mut data, &mut out);
    assert!(!r.handled);
    let r = list.event(&FileListEvent::Command(LapceUICommand::Focus), H, &mut t, &mut data, &mut out);
    assert!(r.handled && r.request_focus);
    assert_eq!(data.active, data.file_list_id);
    assert!(data.check_condition("list_focus"));
    assert_eq!(list.id(), Some(data.file_list_id));
}

#[test]
fn layout_height_is_rows_times_height() {
    let data = panel(&abc(), 0);
    let list = list_for(&data);
    assert_eq!(list.layout_height(H, &data), 60);
    assert_eq!(list.layout_height(0, &data), 0);
}

#[test]
fn focus_change_asks_for_repaint() {
    let data = panel(&abc(), 0);
    let list = list_for(&data);
    assert!(list.lifecycle(&LifeCycle::FocusChanged(true)));
    assert!(list.lifecycle(&LifeCycle::FocusChanged(false)));
    assert!(!list.lifecycle(&LifeCycle::HotChanged(true)));
    assert!(!list.lifecycle(&LifeCycle::WidgetAdded));
}
