//! What a key does, what the editor's outcome means, and a few
//! measures of the screen.

use super::app::{Tab, TaskViewMode};
use crate::db::types::{EnvironmentStatus, TaskStatus};
use crate::text::{trim, trimmed};
use vstd::prelude::*;

verus! {

/// A key as the interface tells them apart.
#[derive(Clone, Copy, Debug, PartialEq, Eq, Structural)]
pub enum Key {
    Char(char),
    Enter,
    Esc,
    Up,
    Down,
    Left,
    Right,
    Tab,
    BackTab,
    Other,
}

/// What a key press asks the interface to do.
#[derive(Clone, Copy, Debug, PartialEq, Eq, Structural)]
pub enum Action {
    Nothing,
    ConfirmDelete,
    CancelConfirm,
    PromptNext,
    PromptPrev,
    PromptAccept,
    PromptCancel,
    ExitDetail,
    ScrollLogDown(usize),
    ScrollLogUp(usize),
    ScrollLogTop,
    ScrollLogBottom,
    Quit,
    NextTab,
    PrevTab,
    SelectTab(usize),
    SelectNext,
    SelectPrev,
    Collapse,
    Expand,
    CollapseAll,
    ExpandAll,
    EnterDetail,
    PromptDelete,
    PromptForceDelete,
    NewTask,
    ToggleViewMode,
    ScrollTuiLogDown(usize),
    ScrollTuiLogUp(usize),
    ScrollTuiLogTop,
    ScrollTuiLogBottom,
}

/// What is open in the interface, as far as keys care.
#[derive(Clone, Copy, Debug, PartialEq, Eq, Structural)]
pub struct Focus {
    /// A deletion waits for confirmation.
    pub confirm: bool,
    /// The prompt for a new task is open.
    pub prompt: bool,
    /// The detail view is open.
    pub detail: bool,
    /// The current tab.
    pub tab: Tab,
}

/// The keys that work on every tab.
pub open spec fn global_action(key: Key, control: bool) -> Option<Action> {
    match key {
        Key::Char('q') => Some(Action::Quit),
        Key::Char('c') if control => Some(Action::Quit),
        Key::Tab => Some(Action::NextTab),
        Key::BackTab => Some(Action::PrevTab),
        Key::Char('1') => Some(Action::SelectTab(0)),
        Key::Char('2') => Some(Action::SelectTab(1)),
        Key::Char('3') => Some(Action::SelectTab(2)),
        Key::Char('4') => Some(Action::SelectTab(3)),
        Key::Char('5') => Some(Action::SelectTab(4)),
        _ => None,
    }
}

/// The keys of a list: moving, opening and deleting; `opens` says whether
/// rows open a detail view.
pub open spec fn list_action(key: Key, opens: bool) -> Action {
    match key {
        Key::Char('j') | Key::Down => Action::SelectNext,
        Key::Char('k') | Key::Up => Action::SelectPrev,
        Key::Enter if opens => Action::EnterDetail,
        Key::Char('d') => Action::PromptDelete,
        Key::Char('D') => Action::PromptForceDelete,
        _ => Action::Nothing,
    }
}

/// The keys of each tab.
pub open spec fn tab_action(tab: Tab, key: Key) -> Action {
    match tab {
        Tab::Tasks => match key {
            Key::Char('h') | Key::Left => Action::Collapse,
            Key::Char('l') | Key::Right => Action::Expand,
            Key::Char('H') => Action::CollapseAll,
            Key::Char('L') => Action::ExpandAll,
            Key::Char('n') => Action::NewTask,
            Key::Char('`') => Action::ToggleViewMode,
            _ => list_action(key, true),
        },
        Tab::Projects => list_action(key, false),
        Tab::Environments => list_action(key, true),
        Tab::Daemon => Action::Nothing,
        Tab::Logs => match key {
            Key::Char('j') | Key::Down => Action::ScrollTuiLogDown(1),
            Key::Char('k') | Key::Up => Action::ScrollTuiLogUp(1),
            Key::Char('g') => Action::ScrollTuiLogTop,
            Key::Char('G') => Action::ScrollTuiLogBottom,
            Key::Char('d') => Action::ScrollTuiLogDown(20),
            Key::Char('u') => Action::ScrollTuiLogUp(20),
            _ => Action::Nothing,
        },
    }
}

/// What a key press does. A confirmation takes every key; then the
/// prompt for a new task; then the detail view; then the keys that work
/// everywhere; then those of the tab.
pub open spec fn action_spec(focus: Focus, key: Key, control: bool) -> Action {
    if focus.confirm {
        match key {
            Key::Char('y') => Action::ConfirmDelete,
            Key::Char('n') | Key::Esc => Action::CancelConfirm,
            _ => Action::Nothing,
        }
    } else if focus.prompt {
        match key {
            Key::Char('j') | Key::Down => Action::PromptNext,
            Key::Char('k') | Key::Up => Action::PromptPrev,
            Key::Enter => Action::PromptAccept,
            Key::Char('q') | Key::Esc => Action::PromptCancel,
            _ => Action::Nothing,
        }
    } else if focus.detail {
        match key {
            Key::Char('q') | Key::Esc => Action::ExitDetail,
            Key::Char('j') | Key::Down => Action::ScrollLogDown(1),
            Key::Char('k') | Key::Up => Action::ScrollLogUp(1),
            Key::Char('g') => Action::ScrollLogTop,
            Key::Char('G') => Action::ScrollLogBottom,
            Key::Char('d') => Action::ScrollLogDown(20),
            Key::Char('u') => Action::ScrollLogUp(20),
            _ => Action::Nothing,
        }
    } else {
        match global_action(key, control) {
            Some(action) => action,
            None => tab_action(focus.tab, key),
        }
    }
}

fn list_key(key: Key, opens: bool) -> (r: Action)
    ensures
        r == list_action(key, opens),
{
    match key {
        Key::Char('j') | Key::Down => Action::SelectNext,
        Key::Char('k') | Key::Up => Action::SelectPrev,
        Key::Enter => if opens {
            Action::EnterDetail
        } else {
            Action::Nothing
        },
        Key::Char('d') => Action::PromptDelete,
        Key::Char('D') => Action::PromptForceDelete,
        _ => Action::Nothing,
    }
}

/// Decides what a key press does; `control` says whether the control key
/// was held.
pub fn handle_key(focus: Focus, key: Key, control: bool) -> (r: Action)
    ensures
        r == action_spec(focus, key, control),
{
    if focus.confirm {
        return match key {
            Key::Char('y') => Action::ConfirmDelete,
            Key::Char('n') | Key::Esc => Action::CancelConfirm,
            _ => Action::Nothing,
        };
    }
    if focus.prompt {
        return match key {
            Key::Char('j') | Key::Down => Action::PromptNext,
            Key::Char('k') | Key::Up => Action::PromptPrev,
            Key::Enter => Action::PromptAccept,
            Key::Char('q') | Key::Esc => Action::PromptCancel,
            _ => Action::Nothing,
        };
    }
    if focus.detail {
        return match key {
            Key::Char('q') | Key::Esc => Action::ExitDetail,
            Key::Char('j') | Key::Down => Action::ScrollLogDown(1),
            Key::Char('k') | Key::Up => Action::ScrollLogUp(1),
            Key::Char('g') => Action::ScrollLogTop,
            Key::Char('G') => Action::ScrollLogBottom,
            Key::Char('d') => Action::ScrollLogDown(20),
            Key::Char('u') => Action::ScrollLogUp(20),
            _ => Action::Nothing,
        };
    }
    match key {
        Key::Char('q') => {
            return Action::Quit;
        },
        Key::Char('c') => {
            if control {
                return Action::Quit;
            }
        },
        Key::Tab => {
            return Action::NextTab;
        },
        Key::BackTab => {
            return Action::PrevTab;
        },
        Key::Char('1') => {
            return Action::SelectTab(0);
        },
        Key::Char('2') => {
            return Action::SelectTab(1);
        },
        Key::Char('3') => {
            return Action::SelectTab(2);
        },
        Key::Char('4') => {
            return Action::SelectTab(3);
        },
        Key::Char('5') => {
            return Action::SelectTab(4);
        },
        _ => {},
    }
    match focus.tab {
        Tab::Tasks => match key {
            Key::Char('h') | Key::Left => Action::Collapse,
            Key::Char('l') | Key::Right => Action::Expand,
            Key::Char('H') => Action::CollapseAll,
            Key::Char('L') => Action::ExpandAll,
            Key::Char('n') => Action::NewTask,
            Key::Char('`') => Action::ToggleViewMode,
            _ => list_key(key, true),
        },
        Tab::Projects => list_key(key, false),
        Tab::Environments => list_key(key, true),
        Tab::Daemon => Action::Nothing,
        Tab::Logs => match key {
            Key::Char('j') | Key::Down => Action::ScrollTuiLogDown(1),
            Key::Char('k') | Key::Up => Action::ScrollTuiLogUp(1),
            Key::Char('g') => Action::ScrollTuiLogTop,
            Key::Char('G') => Action::ScrollTuiLogBottom,
            Key::Char('d') => Action::ScrollTuiLogDown(20),
            Key::Char('u') => Action::ScrollTuiLogUp(20),
            _ => Action::Nothing,
        },
    }
}

/// Only accepting the prompt for a new task needs the screen drawn
/// anew: the editor has had the terminal.
pub fn needs_full_redraw(action: Action) -> (r: bool)
    ensures
        r == (action == Action::PromptAccept),
{
    match action {
        Action::PromptAccept => true,
        _ => false,
    }
}

/// How the edit of a task's description ended.
#[derive(Debug)]
pub enum EditorOutcome {
    /// The description to use.
    Submitted(String),
    /// No task is made; the text says why.
    Cancelled(String),
}

/// What the editor's outcome means: a failed editor and an empty
/// description cancel; else the description is the text without white
/// space at its ends.
pub fn editor_outcome(editor: &str, success: bool, status: &str, contents: &str) -> (r: EditorOutcome)
    ensures
        match r {
            EditorOutcome::Cancelled(reason) => if !success {
                reason@ == "task creation cancelled ("@ + editor@ + " exited with "@ + status@ + ")"@
            } else {
                trimmed(contents@).len() == 0 && reason@ == "task description is empty"@
            },
            EditorOutcome::Submitted(description) => success && description@ == trimmed(contents@)
                && description@.len() > 0,
        },
{
    if !success {
        return EditorOutcome::Cancelled(
            String::from_str("task creation cancelled (").concat(editor).concat(" exited with ").concat(
                status,
            ).concat(")"),
        );
    }
    let description = trim(contents);
    if description.as_str().unicode_len() == 0 {
        return EditorOutcome::Cancelled(String::from_str("task description is empty"));
    }
    EditorOutcome::Submitted(description)
}

/// The name of the file that the description is edited in.
pub fn editor_file_name(id: &str) -> (r: String)
    ensures
        r@ == "work-task-"@ + id@ + ".txt"@,
{
    String::from_str("work-task-").concat(id).concat(".txt")
}

/// The first eight characters of an id; all of a shorter one.
pub open spec fn short_id_spec(id: Seq<char>) -> Seq<char> {
    if id.len() > 8 {
        id.subrange(0, 8)
    } else {
        id
    }
}

/// Shortens an id for display.
pub fn short_id(id: &str) -> (r: &str)
    ensures
        r@ == short_id_spec(id@),
{
    if id.unicode_len() > 8 {
        id.substring_char(0, 8)
    } else {
        id
    }
}

/// The colours that a status is shown in.
#[derive(Clone, Copy, Debug, PartialEq, Eq, Structural)]
pub enum StatusColor {
    Yellow,
    Blue,
    Green,
    Red,
    Plain,
}

/// The frame of the spinner at a tick: four frames in turn.
pub open spec fn spinner_spec(tick: int) -> Seq<char> {
    let frame = tick % 4;
    if frame == 0 {
        "◐"@
    } else if frame == 1 {
        "◓"@
    } else if frame == 2 {
        "◑"@
    } else {
        "◒"@
    }
}

/// The frame of the spinner at a tick.
pub fn spinner(tick: usize) -> (r: &'static str)
    ensures
        r@ == spinner_spec(tick as int),
{
    let frame = tick % 4;
    if frame == 0 {
        "◐"
    } else if frame == 1 {
        "◓"
    } else if frame == 2 {
        "◑"
    } else {
        "◒"
    }
}

/// The mark and the colour that a task's status is shown with; a
/// started task spins.
pub fn status_mark(status: TaskStatus, tick: usize) -> (r: (&'static str, StatusColor))
    ensures
        r.0@ == (match status {
            TaskStatus::Pending => "●"@,
            TaskStatus::Started => spinner_spec(tick as int),
            TaskStatus::Complete => "✓"@,
            TaskStatus::Failed => "✗"@,
        }),
        r.1 == (match status {
            TaskStatus::Pending => StatusColor::Yellow,
            TaskStatus::Started => StatusColor::Blue,
            TaskStatus::Complete => StatusColor::Green,
            TaskStatus::Failed => StatusColor::Red,
        }),
{
    match status {
        TaskStatus::Pending => ("●", StatusColor::Yellow),
        TaskStatus::Started => (spinner(tick), StatusColor::Blue),
        TaskStatus::Complete => ("✓", StatusColor::Green),
        TaskStatus::Failed => ("✗", StatusColor::Red),
    }
}

/// The mark and the colour that an environment's status is shown with:
/// only a failed one is marked.
pub fn environment_mark(status: EnvironmentStatus) -> (r: (&'static str, StatusColor))
    ensures
        status == EnvironmentStatus::Failed ==> r.0@ == "✗"@ && r.1 == StatusColor::Red,
        status != EnvironmentStatus::Failed ==> r.0@ == ""@ && r.1 == StatusColor::Plain,
{
    match status {
        EnvironmentStatus::Failed => ("✗", StatusColor::Red),
        _ => ("", StatusColor::Plain),
    }
}

/// Most projects that the prompt for a new task shows at once.
pub const PROMPT_ROWS: usize = 6;

/// The projects that the prompt for a new task shows, from the first to
/// before the second: six around the chosen one, or all where there are
/// no more.
pub open spec fn prompt_window_spec(selected: int, count: int) -> (int, int) {
    let chosen = if count == 0 {
        0
    } else if selected < count {
        selected
    } else {
        count - 1
    };
    let first = if chosen > 3 {
        chosen - 3
    } else {
        0
    };
    let end = if first + 6 < count {
        first + 6
    } else {
        count
    };
    let start = if end > 6 {
        end - 6
    } else {
        0
    };
    (start, end)
}

/// Computes [`prompt_window_spec`].
pub fn prompt_window(selected: usize, count: usize) -> (r: (usize, usize))
    ensures
        (r.0 as int, r.1 as int) == prompt_window_spec(selected as int, count as int),
        r.0 <= r.1 <= count,
        r.1 - r.0 <= PROMPT_ROWS,
{
    let chosen = if count == 0 {
        0
    } else if selected < count {
        selected
    } else {
        count - 1
    };
    let first = if chosen > 3 {
        chosen - 3
    } else {
        0
    };
    let end = if count >= 6 && first < count - 6 {
        first + 6
    } else {
        count
    };
    let start = if end > 6 {
        end - 6
    } else {
        0
    };
    (start, end)
}

/// The hints of the status line: which keys do what, for what is open.
pub open spec fn hints_spec(focus: Focus, mode: TaskViewMode) -> Seq<char> {
    if focus.prompt {
        " j/k: choose project | Enter: open editor | q/Esc: cancel"@
    } else if focus.detail {
        " q/Esc: back | j/k: scroll | g/G: top/bottom | d/u: half-page"@
    } else {
        match focus.tab {
            Tab::Tasks => match mode {
                TaskViewMode::Flat => " Tab: tabs | j/k: navigate | Enter: logs | n: new | d: delete | D: force delete | `: flat/tree | q: quit"@,
                TaskViewMode::Tree => " Tab: tabs | j/k: navigate | h/l: collapse/expand | Enter: logs | n: new | d: delete | D: force delete | `: flat/tree | q: quit"@,
            },
            Tab::Projects => " Tab: tabs | j/k: navigate | d/D: delete | q: quit"@,
            Tab::Environments => " Tab: tabs | j/k: navigate | Enter: logs | d: delete | D: force delete | q: quit"@,
            Tab::Daemon => " Tab: tabs | q: quit"@,
            Tab::Logs => " Tab: tabs | j/k: scroll | g/G: top/bottom | d/u: half-page | q: quit"@,
        }
    }
}

/// The hints of the status line.
pub fn hints(focus: Focus, mode: TaskViewMode) -> (r: &'static str)
    ensures
        r@ == hints_spec(focus, mode),
{
    if focus.prompt {
        " j/k: choose project | Enter: open editor | q/Esc: cancel"
    } else if focus.detail {
        " q/Esc: back | j/k: scroll | g/G: top/bottom | d/u: half-page"
    } else {
        match focus.tab {
            Tab::Tasks => match mode {
                TaskViewMode::Flat => " Tab: tabs | j/k: navigate | Enter: logs | n: new | d: delete | D: force delete | `: flat/tree | q: quit",
                TaskViewMode::Tree => " Tab: tabs | j/k: navigate | h/l: collapse/expand | Enter: logs | n: new | d: delete | D: force delete | `: flat/tree | q: quit",
            },
            Tab::Projects => " Tab: tabs | j/k: navigate | d/D: delete | q: quit",
            Tab::Environments => " Tab: tabs | j/k: navigate | Enter: logs | d: delete | D: force delete | q: quit",
            Tab::Daemon => " Tab: tabs | q: quit",
            Tab::Logs => " Tab: tabs | j/k: scroll | g/G: top/bottom | d/u: half-page | q: quit",
        }
    }
}

/// The line that a framed text starts at so that `line_index` is its
/// last visible line: the frame takes two of the area's lines.
pub open spec fn scroll_top_spec(line_index: int, area_height: int) -> int {
    let visible = if area_height > 2 {
        area_height - 2
    } else {
        0
    };
    let top = if visible > 0 {
        if line_index > visible - 1 {
            line_index - (visible - 1)
        } else {
            0
        }
    } else {
        line_index
    };
    if top > u16::MAX {
        u16::MAX as int
    } else {
        top
    }
}

/// Computes [`scroll_top_spec`].
pub fn scroll_top_for_bottom_follow(line_index: usize, area_height: u16) -> (r: u16)
    ensures
        r == scroll_top_spec(line_index as int, area_height as int),
{
    let visible: usize = if area_height > 2 {
        (area_height - 2) as usize
    } else {
        0
    };
    let top: usize = if visible > 0 {
        if line_index > visible - 1 {
            line_index - (visible - 1)
        } else {
            0
        }
    } else {
        line_index
    };
    if top > u16::MAX as usize {
        u16::MAX
    } else {
        top as u16
    }
}

/// A rectangle of the screen.
#[derive(Clone, Copy, Debug, PartialEq, Eq, Structural)]
pub struct Area {
    pub x: u16,
    pub y: u16,
    pub width: u16,
    pub height: u16,
}

/// Half of what is left of `outer` beside `inner`.
pub open spec fn margin(outer: u16, inner: u16) -> int {
    if outer > inner {
        (outer - inner) / 2
    } else {
        0
    }
}

/// A coordinate, held within the screen's range.
pub open spec fn on_screen(v: int) -> int {
    if v > u16::MAX {
        u16::MAX as int
    } else {
        v
    }
}

/// A rectangle of the size given, at most that of the area, in the middle
/// of the area.
pub fn centered_rect(width: u16, height: u16, area: Area) -> (r: Area)
    ensures
        r.x == on_screen(area.x + margin(area.width, width)),
        r.y == on_screen(area.y + margin(area.height, height)),
        r.width == (if width < area.width {
            width
        } else {
            area.width
        }),
        r.height == (if height < area.height {
            height
        } else {
            area.height
        }),
{
    let dx = if area.width > width {
        (area.width - width) / 2
    } else {
        0
    };
    let dy = if area.height > height {
        (area.height - height) / 2
    } else {
        0
    };
    Area {
        x: if dx > u16::MAX - area.x {
            u16::MAX
        } else {
            area.x + dx
        },
        y: if dy > u16::MAX - area.y {
            u16::MAX
        } else {
            area.y + dy
        },
        width: if width < area.width {
            width
        } else {
            area.width
        },
        height: if height < area.height {
            height
        } else {
            area.height
        },
    }
}

} // verus!
