//! What the terminal interface shows and what is selected in it.

use crate::db::types::{clone_project, Environment, Project, Task};
use crate::text::{count_lines, line_count_spec, str_eq};
use std::collections::HashSet;
use vstd::prelude::*;
use vstd::std_specs::hash::group_hash_axioms;

verus! {

broadcast use group_hash_axioms;

/// The tabs of the interface, in display order.
#[derive(Clone, Copy, Debug, PartialEq, Eq, Structural)]
pub enum Tab {
    Tasks,
    Projects,
    Environments,
    Daemon,
    Logs,
}

/// Number of tabs.
pub const TAB_COUNT: usize = 5;

impl Tab {
    /// The position of the tab.
    pub open spec fn position(self) -> int {
        match self {
            Tab::Tasks => 0,
            Tab::Projects => 1,
            Tab::Environments => 2,
            Tab::Daemon => 3,
            Tab::Logs => 4,
        }
    }

    /// The tab at a position; `None` past the last tab.
    pub open spec fn at_spec(i: int) -> Option<Tab> {
        if i == 0 {
            Some(Tab::Tasks)
        } else if i == 1 {
            Some(Tab::Projects)
        } else if i == 2 {
            Some(Tab::Environments)
        } else if i == 3 {
            Some(Tab::Daemon)
        } else if i == 4 {
            Some(Tab::Logs)
        } else {
            None
        }
    }

    /// The title of the tab.
    pub open spec fn title(self) -> Seq<char> {
        match self {
            Tab::Tasks => "Tasks"@,
            Tab::Projects => "Projects"@,
            Tab::Environments => "Environments"@,
            Tab::Daemon => "Daemon"@,
            Tab::Logs => "Logs"@,
        }
    }

    /// The title of the tab.
    pub fn label(self) -> (r: &'static str)
        ensures
            r@ == self.title(),
    {
        match self {
            Tab::Tasks => "Tasks",
            Tab::Projects => "Projects",
            Tab::Environments => "Environments",
            Tab::Daemon => "Daemon",
            Tab::Logs => "Logs",
        }
    }

    /// The position of the tab, from 0.
    pub fn index(self) -> (r: usize)
        ensures
            r == self.position(),
            r < TAB_COUNT,
    {
        match self {
            Tab::Tasks => 0,
            Tab::Projects => 1,
            Tab::Environments => 2,
            Tab::Daemon => 3,
            Tab::Logs => 4,
        }
    }

    /// The tab at a position.
    pub fn at(i: usize) -> (r: Option<Tab>)
        ensures
            r == Self::at_spec(i as int),
            i < TAB_COUNT ==> r is Some && r->0.position() == i,
            i >= TAB_COUNT ==> r is None,
    {
        if i == 0 {
            Some(Tab::Tasks)
        } else if i == 1 {
            Some(Tab::Projects)
        } else if i == 2 {
            Some(Tab::Environments)
        } else if i == 3 {
            Some(Tab::Daemon)
        } else if i == 4 {
            Some(Tab::Logs)
        } else {
            None
        }
    }

    /// All tabs, in display order.
    pub fn all() -> (r: Vec<Tab>)
        ensures
            r@ == seq![Tab::Tasks, Tab::Projects, Tab::Environments, Tab::Daemon, Tab::Logs],
    {
        let r = vec![Tab::Tasks, Tab::Projects, Tab::Environments, Tab::Daemon, Tab::Logs];
        r
    }

    /// The tab after this one; the first follows the last.
    pub fn next(self) -> (r: Tab)
        ensures
            r.position() == (self.position() + 1) % 5,
    {
        match self {
            Tab::Tasks => Tab::Projects,
            Tab::Projects => Tab::Environments,
            Tab::Environments => Tab::Daemon,
            Tab::Daemon => Tab::Logs,
            Tab::Logs => Tab::Tasks,
        }
    }

    /// The tab before this one; the last precedes the first.
    pub fn previous(self) -> (r: Tab)
        ensures
            r.position() == (self.position() + 4) % 5,
    {
        match self {
            Tab::Tasks => Tab::Logs,
            Tab::Projects => Tab::Tasks,
            Tab::Environments => Tab::Projects,
            Tab::Daemon => Tab::Environments,
            Tab::Logs => Tab::Daemon,
        }
    }
}

/// How the task list is laid out.
#[derive(Clone, Copy, Debug, PartialEq, Eq, Structural)]
pub enum TaskViewMode {
    Flat,
    Tree,
}

/// One row of the task tree; each holds the position of its project or
/// task.
#[derive(Clone, Copy, Debug, PartialEq, Eq, Structural)]
pub enum TreeRow {
    Project(usize),
    Task(usize),
    TaskEnvironment(usize),
}

/// The log that the detail view shows.
#[derive(Debug)]
pub enum DetailView {
    TaskLog { task_id: String },
    EnvironmentLog { env_id: String },
}

/// A deletion that waits for the user's confirmation.
#[derive(Debug)]
pub enum Confirm {
    DeleteTask { task_id: String, skip_provider: bool },
    DeleteProject { project_name: String },
    DeleteEnvironment { env_id: String, skip_provider: bool },
}

/// The prompt that asks which project a new task is for.
#[derive(Debug)]
pub struct CreateTaskPrompt {
    pub selected_project: usize,
}

/// Where `selected` ends up in a list of `len` rows: on its row, or on
/// the last row where it lay beyond.
pub open spec fn clamped(selected: int, len: int) -> int {
    if len == 0 {
        0
    } else if selected >= len {
        len - 1
    } else {
        selected
    }
}

/// The rows of the first `n` tasks among those that `shown` lets
/// through: each task, and its environment below it unless the task is
/// collapsed.
pub open spec fn task_rows(shown: Seq<bool>, collapsed: Set<usize>, n: int) -> Seq<TreeRow>
    decreases n,
{
    if n <= 0 {
        Seq::empty()
    } else {
        let before = task_rows(shown, collapsed, n - 1);
        let ti = (n - 1) as usize;
        if !shown[n - 1] {
            before
        } else if collapsed.contains(ti) {
            before.push(TreeRow::Task(ti))
        } else {
            before.push(TreeRow::Task(ti)).push(TreeRow::TaskEnvironment(ti))
        }
    }
}

/// Which tasks belong to the project `project_id`.
pub open spec fn tasks_of(tasks: Seq<Task>, project_id: Seq<char>) -> Seq<bool> {
    Seq::new(tasks.len(), |i: int| tasks[i].project_id@ == project_id)
}

/// Which tasks belong to no project of the list.
pub open spec fn orphans(tasks: Seq<Task>, projects: Seq<Project>) -> Seq<bool> {
    Seq::new(
        tasks.len(),
        |i: int| forall|p: int| 0 <= p < projects.len() ==> (#[trigger] projects[p]).id@ != tasks[i].project_id@,
    )
}

/// A project has a task.
pub open spec fn has_tasks(tasks: Seq<Task>, project_id: Seq<char>) -> bool {
    exists|i: int| 0 <= i < tasks.len() && (#[trigger] tasks[i]).project_id@ == project_id
}

/// The rows of the first `n` projects: each project that has tasks, and
/// its tasks below it unless the project is collapsed.
pub open spec fn project_rows(
    projects: Seq<Project>,
    tasks: Seq<Task>,
    collapsed_projects: Set<usize>,
    collapsed_tasks: Set<usize>,
    n: int,
) -> Seq<TreeRow>
    decreases n,
{
    if n <= 0 {
        Seq::empty()
    } else {
        let before = project_rows(projects, tasks, collapsed_projects, collapsed_tasks, n - 1);
        let pi = (n - 1) as usize;
        let id = projects[n - 1].id@;
        if !has_tasks(tasks, id) {
            before
        } else if collapsed_projects.contains(pi) {
            before.push(TreeRow::Project(pi))
        } else {
            before.push(TreeRow::Project(pi)) + task_rows(tasks_of(tasks, id), collapsed_tasks, tasks.len() as int)
        }
    }
}

/// The task tree: the projects with their tasks, then the tasks of no
/// known project.
pub open spec fn tree(
    projects: Seq<Project>,
    tasks: Seq<Task>,
    collapsed_projects: Set<usize>,
    collapsed_tasks: Set<usize>,
) -> Seq<TreeRow> {
    project_rows(projects, tasks, collapsed_projects, collapsed_tasks, projects.len() as int) + task_rows(
        orphans(tasks, projects),
        collapsed_tasks,
        tasks.len() as int,
    )
}

/// Appends the rows of the tasks that `shown` lets through.
fn push_task_rows(rows: &mut Vec<TreeRow>, shown: &Vec<bool>, collapsed: &HashSet<usize>)
    ensures
        final(rows)@ == old(rows)@ + task_rows(shown@, collapsed@, shown.len() as int),
{
    let mut ti: usize = 0;
    while ti < shown.len()
        invariant
            ti <= shown.len(),
            rows@ == old(rows)@ + task_rows(shown@, collapsed@, ti as int),
        decreases shown.len() - ti,
    {
        let ghost before = rows@;
        if shown[ti] {
            rows.push(TreeRow::Task(ti));
            if !collapsed.contains(&ti) {
                rows.push(TreeRow::TaskEnvironment(ti));
            }
        }
        assert(rows@ =~= old(rows)@ + task_rows(shown@, collapsed@, ti as int + 1));
        ti += 1;
    }
}

/// Which tasks belong to the project, and whether any does.
fn mark_tasks(tasks: &Vec<Task>, project_id: &str) -> (r: (Vec<bool>, bool))
    ensures
        r.0@ == tasks_of(tasks@, project_id@),
        r.1 == has_tasks(tasks@, project_id@),
{
    let mut shown: Vec<bool> = Vec::new();
    let mut any = false;
    let mut i: usize = 0;
    while i < tasks.len()
        invariant
            i <= tasks.len(),
            shown.len() == i,
            forall|k: int| 0 <= k < i ==> shown@[k] == ((#[trigger] tasks@[k]).project_id@ == project_id@),
            any == exists|k: int| 0 <= k < i && (#[trigger] tasks@[k]).project_id@ == project_id@,
        decreases tasks.len() - i,
    {
        let belongs = str_eq(tasks[i].project_id.as_str(), project_id);
        shown.push(belongs);
        if belongs {
            any = true;
        }
        i += 1;
    }
    assert(shown@ =~= tasks_of(tasks@, project_id@));
    (shown, any)
}

/// Which tasks belong to no project of the list.
fn mark_orphans(tasks: &Vec<Task>, projects: &Vec<Project>) -> (r: Vec<bool>)
    ensures
        r@ == orphans(tasks@, projects@),
{
    let mut shown: Vec<bool> = Vec::new();
    let mut i: usize = 0;
    while i < tasks.len()
        invariant
            i <= tasks.len(),
            shown.len() == i,
            forall|k: int| 0 <= k < i ==> shown@[k] == orphans(tasks@, projects@)[k],
        decreases tasks.len() - i,
    {
        let mut known = false;
        let mut p: usize = 0;
        while p < projects.len()
            invariant
                p <= projects.len(),
                i < tasks.len(),
                known == exists|q: int| 0 <= q < p && (#[trigger] projects@[q]).id@ == tasks@[i as int].project_id@,
            decreases projects.len() - p,
        {
            if str_eq(projects[p].id.as_str(), tasks[i].project_id.as_str()) {
                known = true;
            }
            p += 1;
        }
        shown.push(!known);
        i += 1;
    }
    assert(shown@ =~= orphans(tasks@, projects@));
    shown
}

/// Builds the task tree.
pub fn build_tree(
    projects: &Vec<Project>,
    tasks: &Vec<Task>,
    collapsed_projects: &HashSet<usize>,
    collapsed_tasks: &HashSet<usize>,
) -> (rows: Vec<TreeRow>)
    ensures
        rows@ == tree(projects@, tasks@, collapsed_projects@, collapsed_tasks@),
{
    let mut rows: Vec<TreeRow> = Vec::new();
    let mut pi: usize = 0;
    while pi < projects.len()
        invariant
            pi <= projects.len(),
            rows@ == project_rows(projects@, tasks@, collapsed_projects@, collapsed_tasks@, pi as int),
        decreases projects.len() - pi,
    {
        let (shown, any) = mark_tasks(tasks, projects[pi].id.as_str());
        if any {
            rows.push(TreeRow::Project(pi));
            if !collapsed_projects.contains(&pi) {
                push_task_rows(&mut rows, &shown, collapsed_tasks);
            }
        }
        pi += 1;
    }
    let shown = mark_orphans(tasks, projects);
    push_task_rows(&mut rows, &shown, collapsed_tasks);
    rows
}

/// The first row that is `row`, if any.
pub open spec fn row_position(rows: Seq<TreeRow>, row: TreeRow) -> Option<int> {
    crate::db::query::position(rows, row)
}

/// Finds [`row_position`].
pub fn find_row(rows: &Vec<TreeRow>, row: TreeRow) -> (r: Option<usize>)
    ensures
        match r {
            Some(i) => row_position(rows@, row) == Some(i as int) && i < rows.len(),
            None => row_position(rows@, row) is None,
        },
{
    let mut i: usize = 0;
    while i < rows.len()
        invariant
            i <= rows.len(),
            forall|j: int| 0 <= j < i ==> rows@[j] != row,
        decreases rows.len() - i,
    {
        if rows[i] == row {
            proof {
                crate::db::query::lemma_position_is(rows@, row, i as int);
            }
            return Some(i);
        }
        i += 1;
    }
    None
}

/// Where a scroll position ends up after moving down by `amount` in a
/// text of `lines` lines: at most on the last line.
pub open spec fn scrolled_down(scroll: int, amount: int, lines: int) -> int {
    let target = if scroll + amount > usize::MAX {
        usize::MAX as int
    } else {
        scroll + amount
    };
    let last = if lines == 0 {
        0
    } else {
        lines - 1
    };
    if target < last {
        target
    } else {
        last
    }
}

/// Where a scroll position ends up after moving up by `amount`: at least
/// on the first line.
pub open spec fn scrolled_up(scroll: int, amount: int) -> int {
    if amount > scroll {
        0
    } else {
        scroll - amount
    }
}

/// The last line of a text of `lines` lines.
pub open spec fn bottom(lines: int) -> int {
    if lines == 0 {
        0
    } else {
        lines - 1
    }
}

/// Where a scroll position ends up when the text is replaced: at the
/// bottom of the new text where it was at the bottom of the old one, else
/// where it was, at most on the last line.
pub open spec fn followed(scroll: int, old_lines: int, new_lines: int) -> int {
    if scroll >= bottom(old_lines) {
        bottom(new_lines)
    } else if scroll < bottom(new_lines) {
        scroll
    } else {
        bottom(new_lines)
    }
}

fn last_line(lines: usize) -> (r: usize)
    ensures
        r == bottom(lines as int),
{
    if lines == 0 {
        0
    } else {
        lines - 1
    }
}

fn scroll_down(scroll: usize, amount: usize, lines: usize) -> (r: usize)
    ensures
        r == scrolled_down(scroll as int, amount as int, lines as int),
{
    let target = if amount > usize::MAX - scroll {
        usize::MAX
    } else {
        scroll + amount
    };
    let last = last_line(lines);
    if target < last {
        target
    } else {
        last
    }
}

fn scroll_up(scroll: usize, amount: usize) -> (r: usize)
    ensures
        r == scrolled_up(scroll as int, amount as int),
{
    if amount > scroll {
        0
    } else {
        scroll - amount
    }
}

fn follow(scroll: usize, old_lines: usize, new_lines: usize) -> (r: usize)
    ensures
        r == followed(scroll as int, old_lines as int, new_lines as int),
{
    if scroll >= last_line(old_lines) {
        last_line(new_lines)
    } else if scroll < last_line(new_lines) {
        scroll
    } else {
        last_line(new_lines)
    }
}

/// The state of the interface.
#[derive(Debug)]
pub struct App {
    pub should_quit: bool,
    pub tab: Tab,
    pub detail: Option<DetailView>,
    pub confirm: Option<Confirm>,
    pub create_task_prompt: Option<CreateTaskPrompt>,
    pub tasks: Vec<Task>,
    pub projects: Vec<Project>,
    pub environments: Vec<Environment>,
    pub selected: usize,
    pub log_content: String,
    pub log_scroll: usize,
    pub error: Option<String>,
    pub daemon_connected: bool,
    pub tui_log_content: String,
    pub tui_log_scroll: usize,
    pub task_view_mode: TaskViewMode,
    pub tree_rows: Vec<TreeRow>,
    pub collapsed_projects: HashSet<usize>,
    pub collapsed_tasks: HashSet<usize>,
}

/// The positions below `n`.
pub open spec fn below(n: int) -> Set<usize> {
    Set::new(|i: usize| i < n)
}

/// Where the selection goes after the tree was rebuilt: to the first row
/// that is `row` where there is one, else where it was; in either case
/// within the list.
pub open spec fn moved_to(rows: Seq<TreeRow>, row: TreeRow, selected: int, len: int) -> int {
    match row_position(rows, row) {
        Some(i) => clamped(i, len),
        None => clamped(selected, len),
    }
}

/// What a list answers for a row that may be missing.
pub open spec fn row_at(rows: Seq<TreeRow>, i: int) -> Option<TreeRow> {
    if 0 <= i < rows.len() {
        Some(rows[i])
    } else {
        None
    }
}

/// The ids of a list of projects.
pub open spec fn project_id_list(projects: Seq<Project>) -> Seq<Seq<char>> {
    Seq::new(projects.len(), |i: int| projects[i].id@)
}

/// The ids of a list of environments.
pub open spec fn environment_id_list(environments: Seq<Environment>) -> Seq<Seq<char>> {
    Seq::new(environments.len(), |i: int| environments[i].id@)
}

/// The first project of a list with the given id.
pub fn find_project_id(projects: &Vec<Project>, id: &str) -> (r: Option<usize>)
    ensures
        match r {
            Some(i) => crate::db::query::position(project_id_list(projects@), id@) == Some(i as int) && i
                < projects.len(),
            None => crate::db::query::position(project_id_list(projects@), id@) is None,
        },
{
    let ghost ids = project_id_list(projects@);
    let mut i: usize = 0;
    while i < projects.len()
        invariant
            i <= projects.len(),
            ids == project_id_list(projects@),
            forall|j: int| 0 <= j < i ==> ids[j] != id@,
        decreases projects.len() - i,
    {
        if str_eq(projects[i].id.as_str(), id) {
            proof {
                crate::db::query::lemma_position_is(ids, id@, i as int);
            }
            return Some(i);
        }
        i += 1;
    }
    None
}

impl App {
    /// How many rows the current tab lists.
    pub open spec fn rows(&self) -> int {
        match self.tab {
            Tab::Tasks => match self.task_view_mode {
                TaskViewMode::Flat => self.tasks@.len() as int,
                TaskViewMode::Tree => self.tree_rows@.len() as int,
            },
            Tab::Projects => self.projects@.len() as int,
            Tab::Environments => self.environments@.len() as int,
            Tab::Daemon => 0,
            Tab::Logs => 0,
        }
    }

    /// The tree rows are those of the lists and the collapsed sets.
    pub open spec fn tree_current(&self) -> bool {
        self.tree_rows@ == tree(self.projects@, self.tasks@, self.collapsed_projects@, self.collapsed_tasks@)
    }

    /// Everything but the tree, the collapsed sets and the selection is
    /// as in `other`.
    pub open spec fn same_lists(&self, other: &App) -> bool {
        &&& self.should_quit == other.should_quit
        &&& self.tab == other.tab
        &&& self.detail == other.detail
        &&& self.confirm == other.confirm
        &&& self.create_task_prompt == other.create_task_prompt
        &&& self.tasks == other.tasks
        &&& self.projects == other.projects
        &&& self.environments == other.environments
        &&& self.log_content == other.log_content
        &&& self.log_scroll == other.log_scroll
        &&& self.error == other.error
        &&& self.daemon_connected == other.daemon_connected
        &&& self.tui_log_content == other.tui_log_content
        &&& self.tui_log_scroll == other.tui_log_scroll
        &&& self.task_view_mode == other.task_view_mode
    }

    /// The task that the selected row stands for.
    pub open spec fn selected_task(&self) -> Option<usize> {
        match self.task_view_mode {
            TaskViewMode::Flat => if self.selected < self.tasks@.len() {
                Some(self.selected)
            } else {
                None
            },
            TaskViewMode::Tree => match row_at(self.tree_rows@, self.selected as int) {
                Some(TreeRow::Task(ti)) => Some(ti),
                _ => None,
            },
        }
    }

    /// The project that a new task is meant for by default: that of the
    /// selected row of the task tab.
    pub open spec fn default_project(&self) -> Option<Seq<char>> {
        if self.tab != Tab::Tasks {
            None
        } else {
            match self.task_view_mode {
                TaskViewMode::Flat => if self.selected < self.tasks@.len() {
                    Some(self.tasks@[self.selected as int].project_id@)
                } else {
                    None
                },
                TaskViewMode::Tree => match row_at(self.tree_rows@, self.selected as int) {
                    Some(TreeRow::Project(pi)) => if pi < self.projects@.len() {
                        Some(self.projects@[pi as int].id@)
                    } else {
                        None
                    },
                    Some(TreeRow::Task(ti)) | Some(TreeRow::TaskEnvironment(ti)) => if ti < self.tasks@.len() {
                        Some(self.tasks@[ti as int].project_id@)
                    } else {
                        None
                    },
                    None => None,
                },
            }
        }
    }

    /// The project that the prompt for a new task starts on: the default
    /// project where it is in the list, else the first.
    pub open spec fn prompt_start(&self) -> int {
        match self.default_project() {
            Some(id) => match crate::db::query::position(project_id_list(self.projects@), id) {
                Some(i) => i,
                None => 0,
            },
            None => 0,
        }
    }

    /// What asking for a deletion leaves: a confirmation for the
    /// selected task, project or environment, where a row is selected.
    pub open spec fn asks(&self, skip_provider: bool, after: App) -> bool {
        &&& after == (App { confirm: after.confirm, ..*self })
        &&& match self.tab {
            Tab::Tasks => match self.selected_task() {
                Some(ti) if ti < self.tasks@.len() => after.confirm is Some && after.confirm->0 is DeleteTask
                    && after.confirm->0->DeleteTask_task_id@ == self.tasks@[ti as int].id@
                    && after.confirm->0->DeleteTask_skip_provider == skip_provider,
                _ => after.confirm == self.confirm,
            },
            Tab::Projects => if self.selected < self.projects@.len() {
                after.confirm is Some && after.confirm->0 is DeleteProject && after.confirm->0->project_name@
                    == self.projects@[self.selected as int].name@
            } else {
                after.confirm == self.confirm
            },
            Tab::Environments => if self.selected < self.environments@.len() {
                after.confirm is Some && after.confirm->0 is DeleteEnvironment
                    && after.confirm->0->DeleteEnvironment_env_id@ == self.environments@[self.selected as int].id@
                    && after.confirm->0->DeleteEnvironment_skip_provider == skip_provider
            } else {
                after.confirm == self.confirm
            },
            _ => after.confirm == self.confirm,
        }
    }

    /// The interface as it starts: on the task tab, with nothing loaded.
    pub fn new(task_view_mode: TaskViewMode) -> (r: App)
        ensures
            !r.should_quit,
            r.tab == Tab::Tasks,
            r.detail is None,
            r.confirm is None,
            r.create_task_prompt is None,
            r.tasks@.len() == 0,
            r.projects@.len() == 0,
            r.environments@.len() == 0,
            r.selected == 0,
            r.log_content@.len() == 0,
            r.log_scroll == 0,
            r.error is None,
            !r.daemon_connected,
            r.tui_log_content@.len() == 0,
            r.tui_log_scroll == 0,
            r.task_view_mode == task_view_mode,
            r.tree_rows@.len() == 0,
            r.collapsed_projects@ == Set::<usize>::empty(),
            r.collapsed_tasks@ == Set::<usize>::empty(),
    {
        App {
            should_quit: false,
            tab: Tab::Tasks,
            detail: None,
            confirm: None,
            create_task_prompt: None,
            tasks: Vec::new(),
            projects: Vec::new(),
            environments: Vec::new(),
            selected: 0,
            log_content: String::new(),
            log_scroll: 0,
            error: None,
            daemon_connected: false,
            tui_log_content: String::new(),
            tui_log_scroll: 0,
            task_view_mode,
            tree_rows: Vec::new(),
            collapsed_projects: HashSet::new(),
            collapsed_tasks: HashSet::new(),
        }
    }

    /// How many rows the current tab lists.
    pub fn list_len(&self) -> (r: usize)
        ensures
            r == self.rows(),
    {
        match self.tab {
            Tab::Tasks => match self.task_view_mode {
                TaskViewMode::Flat => self.tasks.len(),
                TaskViewMode::Tree => self.tree_rows.len(),
            },
            Tab::Projects => self.projects.len(),
            Tab::Environments => self.environments.len(),
            Tab::Daemon => 0,
            Tab::Logs => 0,
        }
    }

    /// Moves the selection back into the list.
    pub fn clamp_selected(&mut self)
        ensures
            final(self).selected == clamped(old(self).selected as int, old(self).rows()),
            *final(self) == (App { selected: final(self).selected, ..*old(self) }),
    {
        let len = self.list_len();
        if len == 0 {
            self.selected = 0;
        } else if self.selected >= len {
            self.selected = len - 1;
        }
    }

    /// Builds the task tree anew.
    pub fn rebuild_tree(&mut self)
        ensures
            final(self).tree_current(),
            *final(self) == (App { tree_rows: final(self).tree_rows, ..*old(self) }),
    {
        self.tree_rows = build_tree(&self.projects, &self.tasks, &self.collapsed_projects, &self.collapsed_tasks);
    }

    /// Takes in what a poll of the daemon brought: the tasks, or the
    /// error that says the daemon is away, and the projects and
    /// environments where they could be had. The tree is rebuilt and the
    /// selection kept within the list.
    pub fn apply_poll(
        &mut self,
        tasks: Result<Vec<Task>, String>,
        projects: Option<Vec<Project>>,
        environments: Option<Vec<Environment>>,
    )
        ensures
            match tasks {
                Ok(t) => final(self).tasks == t && final(self).error is None && final(self).daemon_connected,
                Err(e) => final(self).tasks == old(self).tasks && final(self).error.deep_view() == Some(
                    "daemon: "@ + e@,
                ) && !final(self).daemon_connected,
            },
            final(self).projects == (match projects {
                Some(p) => p,
                None => old(self).projects,
            }),
            final(self).environments == (match environments {
                Some(e) => e,
                None => old(self).environments,
            }),
            final(self).tree_current(),
            final(self).selected == clamped(old(self).selected as int, final(self).rows()),
            final(self).collapsed_projects == old(self).collapsed_projects,
            final(self).collapsed_tasks == old(self).collapsed_tasks,
            final(self).tab == old(self).tab,
            final(self).task_view_mode == old(self).task_view_mode,
            final(self).detail == old(self).detail,
            final(self).confirm == old(self).confirm,
            final(self).create_task_prompt == old(self).create_task_prompt,
            final(self).should_quit == old(self).should_quit,
            final(self).log_content == old(self).log_content,
            final(self).log_scroll == old(self).log_scroll,
            final(self).tui_log_content == old(self).tui_log_content,
            final(self).tui_log_scroll == old(self).tui_log_scroll,
    {
        match tasks {
            Ok(t) => {
                self.tasks = t;
                self.error = None;
                self.daemon_connected = true;
            },
            Err(e) => {
                self.error = Some(String::from_str("daemon: ").concat(e.as_str()));
                self.daemon_connected = false;
            },
        }
        if let Some(p) = projects {
            self.projects = p;
        }
        if let Some(e) = environments {
            self.environments = e;
        }
        self.rebuild_tree();
        self.clamp_selected();
    }

    /// Moves the selection to the first row that is `row`, where there is
    /// one, and keeps it within the list.
    fn move_selected_to(&mut self, row: TreeRow)
        ensures
            final(self).selected == moved_to(old(self).tree_rows@, row, old(self).selected as int, old(self).rows()),
            *final(self) == (App { selected: final(self).selected, ..*old(self) }),
    {
        if let Some(i) = find_row(&self.tree_rows, row) {
            self.selected = i;
        }
        self.clamp_selected();
    }

    /// Moves the selection to the row of the project at position `pi`.
    pub fn move_selected_to_project(&mut self, pi: usize)
        ensures
            final(self).selected == moved_to(
                old(self).tree_rows@,
                TreeRow::Project(pi),
                old(self).selected as int,
                old(self).rows(),
            ),
            *final(self) == (App { selected: final(self).selected, ..*old(self) }),
    {
        self.move_selected_to(TreeRow::Project(pi));
    }

    /// Collapses the section of the selected row of the tree: a project
    /// row hides its tasks, a task row its environment, and an
    /// environment row its own task's environment, with the selection
    /// moving up to the task. Outside the tree layout nothing happens.
    pub fn collapse_section(&mut self)
        ensures
            final(self).same_lists(old(self)),
            old(self).task_view_mode != TaskViewMode::Tree || row_at(
                old(self).tree_rows@,
                old(self).selected as int,
            ) is None ==> *final(self) == *old(self),
            old(self).task_view_mode == TaskViewMode::Tree ==> match row_at(
                old(self).tree_rows@,
                old(self).selected as int,
            ) {
                Some(TreeRow::Project(pi)) => {
                    &&& final(self).collapsed_projects@ == old(self).collapsed_projects@.insert(pi)
                    &&& final(self).collapsed_tasks@ == old(self).collapsed_tasks@
                    &&& final(self).tree_current()
                    &&& final(self).selected == moved_to(
                        final(self).tree_rows@,
                        TreeRow::Project(pi),
                        old(self).selected as int,
                        final(self).rows(),
                    )
                },
                Some(TreeRow::Task(ti)) => {
                    &&& final(self).collapsed_projects@ == old(self).collapsed_projects@
                    &&& final(self).collapsed_tasks@ == old(self).collapsed_tasks@.insert(ti)
                    &&& final(self).tree_current()
                    &&& final(self).selected == clamped(old(self).selected as int, final(self).rows())
                },
                Some(TreeRow::TaskEnvironment(ti)) => {
                    &&& final(self).collapsed_projects@ == old(self).collapsed_projects@
                    &&& final(self).collapsed_tasks@ == old(self).collapsed_tasks@.insert(ti)
                    &&& final(self).tree_current()
                    &&& final(self).selected == moved_to(
                        final(self).tree_rows@,
                        TreeRow::Task(ti),
                        old(self).selected as int,
                        final(self).rows(),
                    )
                },
                None => true,
            },
    {
        if self.task_view_mode != TaskViewMode::Tree {
            return ;
        }
        if self.selected >= self.tree_rows.len() {
            return ;
        }
        match self.tree_rows[self.selected] {
            TreeRow::Project(pi) => {
                self.collapsed_projects.insert(pi);
                self.rebuild_tree();
                self.move_selected_to_project(pi);
            },
            TreeRow::Task(ti) => {
                self.collapsed_tasks.insert(ti);
                self.rebuild_tree();
                self.clamp_selected();
            },
            TreeRow::TaskEnvironment(ti) => {
                self.collapsed_tasks.insert(ti);
                self.rebuild_tree();
                self.move_selected_to(TreeRow::Task(ti));
            },
        }
    }

    /// Expands the section of the selected row of the tree, where it is
    /// a collapsed project or task. Outside the tree layout, and on any
    /// other row, nothing happens.
    pub fn expand_section(&mut self)
        ensures
            final(self).same_lists(old(self)),
            old(self).task_view_mode == TaskViewMode::Tree ==> match row_at(
                old(self).tree_rows@,
                old(self).selected as int,
            ) {
                Some(TreeRow::Project(pi)) if old(self).collapsed_projects@.contains(pi) => {
                    &&& final(self).collapsed_projects@ == old(self).collapsed_projects@.remove(pi)
                    &&& final(self).collapsed_tasks@ == old(self).collapsed_tasks@
                    &&& final(self).tree_current()
                    &&& final(self).selected == clamped(old(self).selected as int, final(self).rows())
                },
                Some(TreeRow::Task(ti)) if old(self).collapsed_tasks@.contains(ti) => {
                    &&& final(self).collapsed_projects@ == old(self).collapsed_projects@
                    &&& final(self).collapsed_tasks@ == old(self).collapsed_tasks@.remove(ti)
                    &&& final(self).tree_current()
                    &&& final(self).selected == clamped(old(self).selected as int, final(self).rows())
                },
                _ => {
                    &&& final(self).collapsed_projects@ == old(self).collapsed_projects@
                    &&& final(self).collapsed_tasks@ == old(self).collapsed_tasks@
                    &&& final(self).tree_rows == old(self).tree_rows
                    &&& final(self).selected == old(self).selected
                },
            },
            old(self).task_view_mode != TaskViewMode::Tree ==> *final(self) == *old(self),
    {
        if self.task_view_mode != TaskViewMode::Tree {
            return ;
        }
        if self.selected >= self.tree_rows.len() {
            return ;
        }
        match self.tree_rows[self.selected] {
            TreeRow::Project(pi) => {
                if self.collapsed_projects.remove(&pi) {
                    self.rebuild_tree();
                    self.clamp_selected();
                }
            },
            TreeRow::Task(ti) => {
                if self.collapsed_tasks.remove(&ti) {
                    self.rebuild_tree();
                    self.clamp_selected();
                }
            },
            TreeRow::TaskEnvironment(_) => {},
        }
    }

    /// Collapses every project and every task of the tree.
    pub fn collapse_all(&mut self)
        ensures
            final(self).same_lists(old(self)),
            old(self).task_view_mode != TaskViewMode::Tree ==> *final(self) == *old(self),
            old(self).task_view_mode == TaskViewMode::Tree ==> {
                &&& final(self).collapsed_projects@ == old(self).collapsed_projects@.union(
                    below(old(self).projects@.len() as int),
                )
                &&& final(self).collapsed_tasks@ == old(self).collapsed_tasks@.union(
                    below(old(self).tasks@.len() as int),
                )
                &&& final(self).tree_current()
                &&& final(self).selected == clamped(old(self).selected as int, final(self).rows())
            },
    {
        if self.task_view_mode != TaskViewMode::Tree {
            return ;
        }
        let mut pi: usize = 0;
        while pi < self.projects.len()
            invariant
                pi <= self.projects.len(),
                self.same_lists(old(self)),
                self.selected == old(self).selected,
                self.tree_rows == old(self).tree_rows,
                self.collapsed_tasks == old(self).collapsed_tasks,
                self.collapsed_projects@ == old(self).collapsed_projects@.union(below(pi as int)),
            decreases self.projects.len() - pi,
        {
            self.collapsed_projects.insert(pi);
            assert(self.collapsed_projects@ =~= old(self).collapsed_projects@.union(below(pi as int + 1)));
            pi += 1;
        }
        let mut ti: usize = 0;
        while ti < self.tasks.len()
            invariant
                ti <= self.tasks.len(),
                self.same_lists(old(self)),
                self.selected == old(self).selected,
                self.tree_rows == old(self).tree_rows,
                self.collapsed_projects@ == old(self).collapsed_projects@.union(
                    below(old(self).projects@.len() as int),
                ),
                self.collapsed_tasks@ == old(self).collapsed_tasks@.union(below(ti as int)),
            decreases self.tasks.len() - ti,
        {
            self.collapsed_tasks.insert(ti);
            assert(self.collapsed_tasks@ =~= old(self).collapsed_tasks@.union(below(ti as int + 1)));
            ti += 1;
        }
        self.rebuild_tree();
        self.clamp_selected();
    }

    /// Expands every project and every task of the tree.
    pub fn expand_all(&mut self)
        ensures
            final(self).same_lists(old(self)),
            old(self).task_view_mode != TaskViewMode::Tree ==> *final(self) == *old(self),
            old(self).task_view_mode == TaskViewMode::Tree ==> {
                &&& final(self).collapsed_projects@ == Set::<usize>::empty()
                &&& final(self).collapsed_tasks@ == Set::<usize>::empty()
                &&& final(self).tree_current()
                &&& final(self).selected == clamped(old(self).selected as int, final(self).rows())
            },
    {
        if self.task_view_mode != TaskViewMode::Tree {
            return ;
        }
        self.collapsed_projects.clear();
        self.collapsed_tasks.clear();
        self.rebuild_tree();
        self.clamp_selected();
    }

    /// Whether the project at a position is collapsed.
    pub fn is_project_collapsed(&self, project_index: usize) -> (r: bool)
        ensures
            r == self.collapsed_projects@.contains(project_index),
    {
        self.collapsed_projects.contains(&project_index)
    }

    /// Whether the task at a position is collapsed.
    pub fn is_task_collapsed(&self, task_index: usize) -> (r: bool)
        ensures
            r == self.collapsed_tasks@.contains(task_index),
    {
        self.collapsed_tasks.contains(&task_index)
    }

    /// Switches between the flat and the tree layout; the selection goes
    /// to the top.
    pub fn toggle_task_view_mode(&mut self)
        ensures
            *final(self) == (App {
                task_view_mode: match old(self).task_view_mode {
                    TaskViewMode::Flat => TaskViewMode::Tree,
                    TaskViewMode::Tree => TaskViewMode::Flat,
                },
                selected: 0,
                ..*old(self)
            }),
    {
        self.task_view_mode = match self.task_view_mode {
            TaskViewMode::Flat => TaskViewMode::Tree,
            TaskViewMode::Tree => TaskViewMode::Flat,
        };
        self.selected = 0;
    }

    /// Goes to the next tab; the selection goes to the top.
    pub fn next_tab(&mut self)
        ensures
            final(self).tab.position() == (old(self).tab.position() + 1) % 5,
            *final(self) == (App { tab: final(self).tab, selected: 0, ..*old(self) }),
    {
        self.tab = self.tab.next();
        self.selected = 0;
    }

    /// Goes to the previous tab; the selection goes to the top.
    pub fn prev_tab(&mut self)
        ensures
            final(self).tab.position() == (old(self).tab.position() + 4) % 5,
            *final(self) == (App { tab: final(self).tab, selected: 0, ..*old(self) }),
    {
        self.tab = self.tab.previous();
        self.selected = 0;
    }

    /// Goes to the tab at a position, where there is one.
    pub fn select_tab(&mut self, idx: usize)
        ensures
            match Tab::at_spec(idx as int) {
                Some(tab) => *final(self) == (App { tab, selected: 0, ..*old(self) }),
                None => *final(self) == *old(self),
            },
    {
        if let Some(tab) = Tab::at(idx) {
            self.tab = tab;
            self.selected = 0;
        }
    }

    /// Moves the selection one row down, unless it is on the last row.
    pub fn select_next(&mut self)
        ensures
            final(self).selected == (if old(self).selected + 1 < old(self).rows() {
                old(self).selected + 1
            } else {
                old(self).selected as int
            }),
            *final(self) == (App { selected: final(self).selected, ..*old(self) }),
    {
        let len = self.list_len();
        if len > 0 && self.selected < len - 1 {
            self.selected += 1;
        }
    }

    /// Moves the selection one row up, unless it is on the first row.
    pub fn select_prev(&mut self)
        ensures
            final(self).selected == (if old(self).selected > 0 {
                old(self).selected - 1
            } else {
                0
            }),
            *final(self) == (App { selected: final(self).selected, ..*old(self) }),
    {
        if self.selected > 0 {
            self.selected -= 1;
        }
    }

    /// The position of the task that the selected row stands for.
    pub fn selected_task_index(&self) -> (r: Option<usize>)
        ensures
            r == self.selected_task(),
    {
        match self.task_view_mode {
            TaskViewMode::Flat => {
                if self.selected < self.tasks.len() {
                    Some(self.selected)
                } else {
                    None
                }
            },
            TaskViewMode::Tree => {
                if self.selected < self.tree_rows.len() {
                    match self.tree_rows[self.selected] {
                        TreeRow::Task(ti) => Some(ti),
                        _ => None,
                    }
                } else {
                    None
                }
            },
        }
    }

    /// The id of the project that a new task is meant for by default.
    pub fn default_project_id_for_new_task(&self) -> (r: Option<&str>)
        ensures
            match r {
                Some(id) => self.default_project() == Some(id@),
                None => self.default_project() is None,
            },
    {
        if self.tab != Tab::Tasks {
            return None;
        }
        match self.task_view_mode {
            TaskViewMode::Flat => {
                if self.selected < self.tasks.len() {
                    Some(self.tasks[self.selected].project_id.as_str())
                } else {
                    None
                }
            },
            TaskViewMode::Tree => {
                if self.selected < self.tree_rows.len() {
                    match self.tree_rows[self.selected] {
                        TreeRow::Project(pi) => {
                            if pi < self.projects.len() {
                                Some(self.projects[pi].id.as_str())
                            } else {
                                None
                            }
                        },
                        TreeRow::Task(ti) | TreeRow::TaskEnvironment(ti) => {
                            if ti < self.tasks.len() {
                                Some(self.tasks[ti].project_id.as_str())
                            } else {
                                None
                            }
                        },
                    }
                } else {
                    None
                }
            },
        }
    }

    /// Opens the prompt for a new task. Without projects there is
    /// nothing to choose from, which is an error; off the task tab
    /// nothing happens.
    pub fn begin_create_task_prompt(&mut self)
        ensures
            old(self).tab != Tab::Tasks ==> *final(self) == *old(self),
            old(self).tab == Tab::Tasks && old(self).projects@.len() == 0 ==> final(self).error.deep_view()
                == Some("no projects available"@) && *final(self) == (App {
                error: final(self).error,
                ..*old(self)
            }),
            old(self).tab == Tab::Tasks && old(self).projects@.len() > 0 ==> final(self).create_task_prompt is Some
                && final(self).create_task_prompt->0.selected_project == old(self).prompt_start()
                && *final(self) == (App {
                create_task_prompt: final(self).create_task_prompt,
                error: None,
                ..*old(self)
            }),
    {
        if self.tab != Tab::Tasks {
            return ;
        }
        if self.projects.len() == 0 {
            self.error = Some(String::from_str("no projects available"));
            return ;
        }
        let selected_project = match self.default_project_id_for_new_task() {
            Some(id) => match find_project_id(&self.projects, id) {
                Some(i) => i,
                None => 0,
            },
            None => 0,
        };
        self.create_task_prompt = Some(CreateTaskPrompt { selected_project });
        self.error = None;
    }

    /// Closes the prompt for a new task.
    pub fn cancel_create_task_prompt(&mut self)
        ensures
            *final(self) == (App { create_task_prompt: None, ..*old(self) }),
    {
        self.create_task_prompt = None;
    }

    /// Moves the prompt's choice one project down, unless it is on the
    /// last.
    pub fn create_task_prompt_select_next(&mut self)
        ensures
            match old(self).create_task_prompt {
                Some(prompt) => final(self).create_task_prompt is Some
                    && final(self).create_task_prompt->0.selected_project == (if prompt.selected_project + 1
                    < old(self).projects@.len() {
                    prompt.selected_project + 1
                } else {
                    prompt.selected_project as int
                }) && *final(self) == (App { create_task_prompt: final(self).create_task_prompt, ..*old(self) }),
                None => *final(self) == *old(self),
            },
    {
        let n = self.projects.len();
        match &mut self.create_task_prompt {
            Some(prompt) => {
                if prompt.selected_project < usize::MAX && prompt.selected_project + 1 < n {
                    prompt.selected_project += 1;
                }
            },
            None => {},
        }
    }

    /// Moves the prompt's choice one project up, unless it is on the
    /// first.
    pub fn create_task_prompt_select_prev(&mut self)
        ensures
            match old(self).create_task_prompt {
                Some(prompt) => final(self).create_task_prompt is Some
                    && final(self).create_task_prompt->0.selected_project == (if prompt.selected_project > 0 {
                    prompt.selected_project - 1
                } else {
                    0
                }) && *final(self) == (App { create_task_prompt: final(self).create_task_prompt, ..*old(self) }),
                None => *final(self) == *old(self),
            },
    {
        match &mut self.create_task_prompt {
            Some(prompt) => {
                if prompt.selected_project > 0 {
                    prompt.selected_project -= 1;
                }
            },
            None => {},
        }
    }

    /// The project that the prompt's choice is on, where the prompt is
    /// open and the project still in the list.
    pub fn create_task_prompt_selected_project(&self) -> (r: Option<&Project>)
        ensures
            match self.create_task_prompt {
                Some(prompt) if prompt.selected_project < self.projects@.len() => r == Some(
                    &self.projects@[prompt.selected_project as int],
                ),
                _ => r is None,
            },
    {
        match &self.create_task_prompt {
            Some(prompt) => {
                if prompt.selected_project < self.projects.len() {
                    Some(&self.projects[prompt.selected_project])
                } else {
                    None
                }
            },
            None => None,
        }
    }

    /// What the keys have to know of the interface.
    pub fn focus(&self) -> (r: super::input::Focus)
        ensures
            r.confirm == self.confirm is Some,
            r.prompt == self.create_task_prompt is Some,
            r.detail == self.detail is Some,
            r.tab == self.tab,
    {
        super::input::Focus {
            confirm: self.confirm.is_some(),
            prompt: self.create_task_prompt.is_some(),
            detail: self.detail.is_some(),
            tab: self.tab,
        }
    }

    /// Accepts the prompt for a new task: the prompt closes, and the
    /// project that its choice was on is handed out. Where that project
    /// is gone from the list, an error is noted instead.
    pub fn accept_create_task_prompt(&mut self) -> (r: Option<Project>)
        ensures
            final(self).create_task_prompt is None,
            match old(self).create_task_prompt {
                Some(prompt) if prompt.selected_project < old(self).projects@.len() => r is Some && r->0@
                    == old(self).projects@[prompt.selected_project as int]@ && *final(self) == (App {
                    create_task_prompt: None,
                    ..*old(self)
                }),
                _ => r is None && final(self).error.deep_view() == Some(
                    "selected project is no longer available"@,
                ) && *final(self) == (App { create_task_prompt: None, error: final(self).error, ..*old(self) }),
            },
    {
        let chosen = match self.create_task_prompt_selected_project() {
            Some(project) => Some(clone_project(project)),
            None => None,
        };
        self.create_task_prompt = None;
        if chosen.is_none() {
            self.error = Some(String::from_str("selected project is no longer available"));
        }
        chosen
    }

    /// The log that the selected row would open: that of the selected
    /// task on the task tab, that of the selected environment on the
    /// environment tab.
    pub fn detail_target(&self) -> (r: Option<DetailView>)
        ensures
            match self.tab {
                Tab::Tasks => match self.selected_task() {
                    Some(ti) if ti < self.tasks@.len() => r is Some && r->0 is TaskLog && r->0->task_id@
                        == self.tasks@[ti as int].id@,
                    _ => r is None,
                },
                Tab::Environments => if self.selected < self.environments@.len() {
                    r is Some && r->0 is EnvironmentLog && r->0->env_id@ == self.environments@[self.selected as int].id@
                } else {
                    r is None
                },
                _ => r is None,
            },
    {
        match self.tab {
            Tab::Tasks => match self.selected_task_index() {
                Some(ti) => {
                    if ti < self.tasks.len() {
                        Some(DetailView::TaskLog { task_id: self.tasks[ti].id.clone() })
                    } else {
                        None
                    }
                },
                None => None,
            },
            Tab::Environments => {
                if self.selected < self.environments.len() {
                    Some(DetailView::EnvironmentLog { env_id: self.environments[self.selected].id.clone() })
                } else {
                    None
                }
            },
            _ => None,
        }
    }

    /// Opens the detail view on a log, scrolled to its last line.
    pub fn enter_detail(&mut self, target: DetailView, content: String)
        ensures
            final(self).log_scroll == bottom(line_count_spec(content@) as int),
            *final(self) == (App {
                detail: Some(target),
                log_content: content,
                log_scroll: final(self).log_scroll,
                ..*old(self)
            }),
    {
        self.log_scroll = last_line(count_lines(content.as_str()));
        self.log_content = content;
        self.detail = Some(target);
    }

    /// Closes the detail view.
    pub fn exit_detail(&mut self)
        ensures
            final(self).log_content@.len() == 0,
            *final(self) == (App {
                detail: None,
                log_content: final(self).log_content,
                log_scroll: 0,
                ..*old(self)
            }),
    {
        self.detail = None;
        self.log_content = String::new();
        self.log_scroll = 0;
    }

    /// Scrolls the log down.
    pub fn scroll_log_down(&mut self, amount: usize)
        ensures
            final(self).log_scroll == scrolled_down(
                old(self).log_scroll as int,
                amount as int,
                line_count_spec(old(self).log_content@) as int,
            ),
            *final(self) == (App { log_scroll: final(self).log_scroll, ..*old(self) }),
    {
        self.log_scroll = scroll_down(self.log_scroll, amount, count_lines(self.log_content.as_str()));
    }

    /// Scrolls the log up.
    pub fn scroll_log_up(&mut self, amount: usize)
        ensures
            final(self).log_scroll == scrolled_up(old(self).log_scroll as int, amount as int),
            *final(self) == (App { log_scroll: final(self).log_scroll, ..*old(self) }),
    {
        self.log_scroll = scroll_up(self.log_scroll, amount);
    }

    /// Scrolls the log to its first line.
    pub fn scroll_log_top(&mut self)
        ensures
            *final(self) == (App { log_scroll: 0, ..*old(self) }),
    {
        self.log_scroll = 0;
    }

    /// Scrolls the log to its last line.
    pub fn scroll_log_bottom(&mut self)
        ensures
            final(self).log_scroll == bottom(line_count_spec(old(self).log_content@) as int),
            *final(self) == (App { log_scroll: final(self).log_scroll, ..*old(self) }),
    {
        self.log_scroll = last_line(count_lines(self.log_content.as_str()));
    }

    /// Takes in the log of the detail view as it stands now. The view
    /// stays at the bottom where it was there. Without a detail view
    /// nothing happens.
    pub fn refresh_detail_logs(&mut self, new_content: String)
        ensures
            old(self).detail is None ==> *final(self) == *old(self),
            old(self).detail is Some ==> final(self).log_scroll == followed(
                old(self).log_scroll as int,
                line_count_spec(old(self).log_content@) as int,
                line_count_spec(new_content@) as int,
            ) && *final(self) == (App {
                log_content: new_content,
                log_scroll: final(self).log_scroll,
                ..*old(self)
            }),
    {
        if self.detail.is_none() {
            return ;
        }
        let old_lines = count_lines(self.log_content.as_str());
        let new_lines = count_lines(new_content.as_str());
        self.log_scroll = follow(self.log_scroll, old_lines, new_lines);
        self.log_content = new_content;
    }

    /// Takes in the interface's own log as it stands now. The view stays
    /// at the bottom where it was there.
    pub fn refresh_tui_logs(&mut self, new_content: String)
        ensures
            final(self).tui_log_scroll == followed(
                old(self).tui_log_scroll as int,
                line_count_spec(old(self).tui_log_content@) as int,
                line_count_spec(new_content@) as int,
            ),
            *final(self) == (App {
                tui_log_content: new_content,
                tui_log_scroll: final(self).tui_log_scroll,
                ..*old(self)
            }),
    {
        let old_lines = count_lines(self.tui_log_content.as_str());
        let new_lines = count_lines(new_content.as_str());
        self.tui_log_scroll = follow(self.tui_log_scroll, old_lines, new_lines);
        self.tui_log_content = new_content;
    }

    /// Scrolls the interface's own log down.
    pub fn scroll_tui_log_down(&mut self, amount: usize)
        ensures
            final(self).tui_log_scroll == scrolled_down(
                old(self).tui_log_scroll as int,
                amount as int,
                line_count_spec(old(self).tui_log_content@) as int,
            ),
            *final(self) == (App { tui_log_scroll: final(self).tui_log_scroll, ..*old(self) }),
    {
        self.tui_log_scroll = scroll_down(self.tui_log_scroll, amount, count_lines(self.tui_log_content.as_str()));
    }

    /// Scrolls the interface's own log up.
    pub fn scroll_tui_log_up(&mut self, amount: usize)
        ensures
            final(self).tui_log_scroll == scrolled_up(old(self).tui_log_scroll as int, amount as int),
            *final(self) == (App { tui_log_scroll: final(self).tui_log_scroll, ..*old(self) }),
    {
        self.tui_log_scroll = scroll_up(self.tui_log_scroll, amount);
    }

    /// Scrolls the interface's own log to its first line.
    pub fn scroll_tui_log_top(&mut self)
        ensures
            *final(self) == (App { tui_log_scroll: 0, ..*old(self) }),
    {
        self.tui_log_scroll = 0;
    }

    /// Scrolls the interface's own log to its last line.
    pub fn scroll_tui_log_bottom(&mut self)
        ensures
            final(self).tui_log_scroll == bottom(line_count_spec(old(self).tui_log_content@) as int),
            *final(self) == (App { tui_log_scroll: final(self).tui_log_scroll, ..*old(self) }),
    {
        self.tui_log_scroll = last_line(count_lines(self.tui_log_content.as_str()));
    }

    /// Asks for confirmation to delete the selected row.
    pub fn prompt_delete(&mut self)
        ensures
            old(self).asks(false, *final(self)),
    {
        self.prompt_delete_with_options(false);
    }

    /// Asks for confirmation to delete the selected row without the
    /// provider's cleanup.
    pub fn prompt_force_delete(&mut self)
        ensures
            old(self).asks(true, *final(self)),
    {
        self.prompt_delete_with_options(true);
    }

    /// Asks for confirmation to delete the selected row.
    pub fn prompt_delete_with_options(&mut self, skip_provider: bool)
        ensures
            old(self).asks(skip_provider, *final(self)),
    {
        match self.tab {
            Tab::Tasks => {
                if let Some(ti) = self.selected_task_index() {
                    if ti < self.tasks.len() {
                        self.confirm = Some(
                            Confirm::DeleteTask { task_id: self.tasks[ti].id.clone(), skip_provider },
                        );
                    }
                }
            },
            Tab::Projects => {
                if self.selected < self.projects.len() {
                    self.confirm = Some(
                        Confirm::DeleteProject { project_name: self.projects[self.selected].name.clone() },
                    );
                }
            },
            Tab::Environments => {
                if self.selected < self.environments.len() {
                    self.confirm = Some(
                        Confirm::DeleteEnvironment {
                            env_id: self.environments[self.selected].id.clone(),
                            skip_provider,
                        },
                    );
                }
            },
            _ => {},
        }
    }

    /// Takes the deletion that was confirmed, to be carried out.
    pub fn confirm_delete(&mut self) -> (r: Option<Confirm>)
        ensures
            r == old(self).confirm,
            *final(self) == (App { confirm: None, ..*old(self) }),
    {
        self.confirm.take()
    }

    /// Notes how the deletion went: an error where it failed.
    pub fn delete_finished(&mut self, result: &Result<(), String>)
        ensures
            match result {
                Ok(_) => *final(self) == (App { error: None, ..*old(self) }),
                Err(e) => final(self).error.deep_view() == Some("delete failed: "@ + e@) && *final(self) == (App {
                    error: final(self).error,
                    ..*old(self)
                }),
            },
    {
        match result {
            Ok(_) => {
                self.error = None;
            },
            Err(e) => {
                self.error = Some(String::from_str("delete failed: ").concat(e.as_str()));
            },
        }
    }

    /// Notes that the daemon is away.
    pub fn set_disconnected(&mut self)
        ensures
            final(self).error.deep_view() == Some("daemon disconnected"@),
            *final(self) == (App { daemon_connected: false, error: final(self).error, ..*old(self) }),
    {
        self.daemon_connected = false;
        self.error = Some(String::from_str("daemon disconnected"));
    }

    /// Drops the deletion that waits for confirmation.
    pub fn cancel_confirm(&mut self)
        ensures
            *final(self) == (App { confirm: None, ..*old(self) }),
    {
        self.confirm = None;
    }

    /// The name of the project with the given id; `-` for none.
    pub fn project_name(&self, project_id: &str) -> (r: &str)
        ensures
            match crate::db::query::position(project_id_list(self.projects@), project_id@) {
                Some(i) => r@ == self.projects@[i].name@,
                None => r@ == "-"@,
            },
    {
        match find_project_id(&self.projects, project_id) {
            Some(i) => self.projects[i].name.as_str(),
            None => "-",
        }
    }

    /// The environment with the given id.
    pub fn find_environment(&self, env_id: &str) -> (r: Option<&Environment>)
        ensures
            match crate::db::query::position(environment_id_list(self.environments@), env_id@) {
                Some(i) => r == Some(&self.environments@[i]),
                None => r is None,
            },
    {
        let ghost ids = environment_id_list(self.environments@);
        let mut i: usize = 0;
        while i < self.environments.len()
            invariant
                i <= self.environments.len(),
                ids == environment_id_list(self.environments@),
                forall|j: int| 0 <= j < i ==> ids[j] != env_id@,
            decreases self.environments.len() - i,
        {
            if str_eq(self.environments[i].id.as_str(), env_id) {
                proof {
                    crate::db::query::lemma_position_is(ids, env_id@, i as int);
                }
                return Some(&self.environments[i]);
            }
            i += 1;
        }
        None
    }
}

} // verus!
