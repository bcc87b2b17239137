use vstd::prelude::*;

use crate::file_list::{
    Point, files_after_click, in_checkbox, index_after_press,
    press_target, row_at,
};
use crate::source_control::{
    LapceCommand, SourceControlData, UiMessage, down_index, toggled, up_index,
};

verus! {

/// On a list of `n > 0` rows, `Up` from row `k` lands on `(k - 1 + n) mod n`,
/// `Down` on `(k + 1) mod n`, and `Up` followed by `Down` returns to `k`.
pub proof fn lemma_movement_wraps(k: int, n: int)
    requires
        0 <= k < n,
    ensures
        up_index(k, n) == (k - 1 + n) % n,
        down_index(k, n) == (k + 1) % n,
        0 <= up_index(k, n) < n,
        0 <= down_index(k, n) < n,
        down_index(up_index(k, n), n) == k,
        up_index(down_index(k, n), n) == k,
{
    if k == 0 {
        vstd::arithmetic::div_mod::lemma_small_mod((n - 1) as nat, n as nat);
        vstd::arithmetic::div_mod::lemma_mod_self_0(n);
    } else {
        vstd::arithmetic::div_mod::lemma_mod_add_multiples_vanish(k - 1, n);
        vstd::arithmetic::div_mod::lemma_small_mod((k - 1) as nat, n as nat);
    }
    if k + 1 < n {
        vstd::arithmetic::div_mod::lemma_small_mod((k + 1) as nat, n as nat);
        vstd::arithmetic::div_mod::lemma_mod_add_multiples_vanish(k, n);
        vstd::arithmetic::div_mod::lemma_small_mod(k as nat, n as nat);
    } else {
        vstd::arithmetic::div_mod::lemma_mod_self_0(n);
        vstd::arithmetic::div_mod::lemma_small_mod((n - 1) as nat, n as nat);
    }
}

/// A `Down` (or `ListNext`) command after an `Up` (or `ListPrevious`) command
/// leaves the panel's cursor and files where they were.
pub proof fn lemma_up_then_down(
    s0: SourceControlData,
    s1: SourceControlData,
    s2: SourceControlData,
    up: LapceCommand,
    down: LapceCommand,
    o0: Seq<UiMessage>,
    o1: Seq<UiMessage>,
    o2: Seq<UiMessage>,
)
    requires
        s0.wf(),
        s0.diff_files@.len() > 0,
        up == LapceCommand::Up || up == LapceCommand::ListPrevious,
        down == LapceCommand::Down || down == LapceCommand::ListNext,
        SourceControlData::command_effect(&s0, &s1, up, o0, o1),
        SourceControlData::command_effect(&s1, &s2, down, o1, o2),
    ensures
        s2.file_list_index == s0.file_list_index,
        s2.diff_files@ == s0.diff_files@,
        o2 == o0,
{
    let n = s0.diff_files@.len() as int;
    lemma_movement_wraps(s0.file_list_index as int, n);
}

/// `Down` on a list of one row keeps the cursor at row 0.
pub proof fn lemma_down_single_row(
    s0: SourceControlData,
    s1: SourceControlData,
    o0: Seq<UiMessage>,
    o1: Seq<UiMessage>,
)
    requires
        s0.wf(),
        s0.diff_files@.len() == 1,
        SourceControlData::command_effect(&s0, &s1, LapceCommand::Down, o0, o1),
    ensures
        s1.file_list_index == 0,
{
    lemma_movement_wraps(0, 1);
}

/// Toggling a row leaves the cursor alone, and moving the cursor leaves every
/// staged flag alone.
pub proof fn lemma_selection_independence(
    s0: SourceControlData,
    s1: SourceControlData,
    command: LapceCommand,
    o0: Seq<UiMessage>,
    o1: Seq<UiMessage>,
)
    requires
        SourceControlData::command_effect(&s0, &s1, command, o0, o1),
    ensures
        command == LapceCommand::ListExpand ==> s1.file_list_index == s0.file_list_index,
        (command == LapceCommand::Up || command == LapceCommand::Down || command
            == LapceCommand::ListPrevious || command == LapceCommand::ListNext) ==> s1.diff_files@
            == s0.diff_files@,
{
}

/// Two press-and-release gestures with the same positions leave every staged
/// flag as it was.
pub proof fn lemma_click_twice(files: Seq<(String, bool)>, p: Point, q: Point, h: int)
    ensures
        files_after_click(files_after_click(files, p, q, h), p, q, h) == files,
{
    let once = files_after_click(files, p, q, h);
    assert(once.len() == files.len());
    match press_target(p, h, files.len() as int) {
        Some(line) => {
            if press_target(q, h, files.len() as int) == Some(line) {
                assert(toggled(toggled(files, line), line) =~= files);
            }
        },
        None => {},
    }
}

/// A press in the checkbox column of a row followed by a release on the same
/// row outside that column toggles nothing.
pub proof fn lemma_release_outside_checkbox(
    files: Seq<(String, bool)>,
    p: Point,
    q: Point,
    h: int,
)
    requires
        in_checkbox(p.x, h),
        !in_checkbox(q.x, h),
        row_at(p.y, h) == row_at(q.y, h),
    ensures
        files_after_click(files, p, q, h) == files,
{
}

/// A press on row `r` followed by a release on row `r + 1` toggles nothing,
/// and the cursor stays on `r`.
pub proof fn lemma_release_on_next_row(
    files: Seq<(String, bool)>,
    index: int,
    p: Point,
    q: Point,
    h: int,
    r: int,
)
    requires
        0 <= r < files.len(),
        row_at(p.y, h) == Some(r),
        row_at(q.y, h) == Some(r + 1),
    ensures
        files_after_click(files, p, q, h) == files,
        index_after_press(index, p, h, files.len() as int) == r,
{
}

} // verus!
