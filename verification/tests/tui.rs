use std::collections::HashSet;

use work::db::{Environment, EnvironmentStatus, Project, Task, TaskStatus};
use work::tui::app::{
    build_tree, find_row, App, Confirm, DetailView, Tab, TaskViewMode, TreeRow, TAB_COUNT,
};
use work::tui::input::{
    centered_rect, editor_file_name, editor_outcome, handle_key, needs_full_redraw,
    scroll_top_for_bottom_follow, short_id, spinner, status_mark, Action, Area, EditorOutcome,
    Focus, Key, StatusColor,
};

fn project(id: &str, name: &str) -> Project {
    Project { id: id.into(), name: name.into(), path: format!("/src/{name}"), created_at: 0, updated_at: 0 }
}

fn task(id: &str, project_id: &str) -> Task {
    Task {
        id: id.into(),
        environment_id: format!("E-{id}"),
        project_id: project_id.into(),
        provider: "noop".into(),
        description: format!("do {id}"),
        status: TaskStatus::Pending,
        created_at: 0,
        updated_at: 0,
    }
}

fn environment(id: &str, project_id: &str) -> Environment {
    Environment {
        id: id.into(),
        project_id: project_id.into(),
        provider: "slow".into(),
        status: EnvironmentStatus::Pool,
        metadata: "{}".into(),
        created_at: 0,
        updated_at: 0,
    }
}

/// Two projects with tasks, one without, and a task of an unknown project.
fn loaded(mode: TaskViewMode) -> App {
    let mut app = App::new(mode);
    app.apply_poll(
        Ok(vec![task("T0", "PJ1"), task("T1", "PJ0"), task("T2", "PJ1"), task("T3", "gone")]),
        Some(vec![project("PJ0", "zero"), project("PJ1", "one"), project("PJ2", "empty")]),
        Some(vec![environment("E0", "PJ0"), environment("E1", "PJ1")]),
    );
    app
}

use TreeRow::{Project as P, Task as T, TaskEnvironment as TE};

#[test]
fn tabs() {
    assert_eq!(TAB_COUNT, 5);
    let all = Tab::all();
    assert_eq!(all, vec![Tab::Tasks, Tab::Projects, Tab::Environments, Tab::Daemon, Tab::Logs]);
    let labels: Vec<&str> = all.iter().map(|t| t.label()).collect();
    assert_eq!(labels, vec!["Tasks", "Projects", "Environments", "Daemon", "Logs"]);
    for (i, tab) in all.iter().enumerate() {
        assert_eq!(tab.index(), i);
        assert_eq!(Tab::at(i), Some(*tab));
        assert_eq!(tab.next().index(), (i + 1) % 5);
        assert_eq!(tab.previous().index(), (i + 4) % 5);
    }
    assert_eq!(Tab::at(5), None);
    assert_eq!(Tab::at(usize::MAX), None);
}

#[test]
fn tree_groups_tasks_by_project_and_keeps_orphans_last() {
    let app = loaded(TaskViewMode::Tree);
    assert_eq!(
        app.tree_rows,
        vec![P(0), T(1), TE(1), P(1), T(0), TE(0), T(2), TE(2), T(3), TE(3)]
    );
    assert_eq!(find_row(&app.tree_rows, T(0)), Some(4));
    let mut moved = loaded(TaskViewMode::Tree);
    moved.move_selected_to_project(1);
    assert_eq!(moved.selected, 3);
    moved.move_selected_to_project(2);
    assert_eq!(moved.selected, 3);
    assert_eq!(find_row(&app.tree_rows, P(2)), None);
    let empty = build_tree(&Vec::new(), &Vec::new(), &HashSet::new(), &HashSet::new());
    assert!(empty.is_empty());
}

#[test]
fn collapsing_and_expanding_sections() {
    let mut app = loaded(TaskViewMode::Tree);
    // on the environment row of task 0: its task collapses, selection moves up
    app.selected = 5;
    app.collapse_section();
    assert_eq!(app.tree_rows, vec![P(0), T(1), TE(1), P(1), T(0), T(2), TE(2), T(3), TE(3)]);
    assert_eq!(app.selected, 4);
    assert!(app.is_task_collapsed(0));
    // on the project row: the project collapses
    app.selected = 3;
    app.collapse_section();
    assert_eq!(app.tree_rows, vec![P(0), T(1), TE(1), P(1), T(3), TE(3)]);
    assert_eq!(app.selected, 3);
    assert!(app.is_project_collapsed(1));
    assert!(!app.is_project_collapsed(0));
    // expanding the project brings its rows back, task 0 still collapsed
    app.expand_section();
    assert_eq!(app.tree_rows, vec![P(0), T(1), TE(1), P(1), T(0), T(2), TE(2), T(3), TE(3)]);
    app.selected = 4;
    app.expand_section();
    assert_eq!(app.tree_rows.len(), 10);
    // an environment row expands nothing
    app.selected = 5;
    app.expand_section();
    assert_eq!(app.tree_rows.len(), 10);
    // a task row collapses its environment
    app.selected = 8;
    app.collapse_section();
    assert_eq!(app.tree_rows, vec![P(0), T(1), TE(1), P(1), T(0), TE(0), T(2), TE(2), T(3)]);
    assert_eq!(app.selected, 8);
    // past the last row nothing happens
    app.selected = 9;
    app.collapse_section();
    assert_eq!(app.tree_rows.len(), 9);
    assert_eq!(app.selected, 9);
}

#[test]
fn collapse_all_and_expand_all() {
    let mut app = loaded(TaskViewMode::Tree);
    app.selected = 9;
    app.collapse_all();
    assert_eq!(app.tree_rows, vec![P(0), P(1), T(3)]);
    assert_eq!(app.selected, 2);
    app.expand_all();
    assert_eq!(app.tree_rows.len(), 10);
    assert_eq!(app.selected, 2);
    // in the flat layout nothing happens
    let mut flat = loaded(TaskViewMode::Flat);
    flat.collapse_all();
    flat.collapse_section();
    assert!(!flat.is_project_collapsed(0));
    assert_eq!(flat.tree_rows.len(), 10);
}

#[test]
fn selection_stays_within_the_list() {
    let mut app = loaded(TaskViewMode::Flat);
    assert_eq!(app.list_len(), 4);
    app.select_prev();
    assert_eq!(app.selected, 0);
    for _ in 0..10 {
        app.select_next();
    }
    assert_eq!(app.selected, 3);
    app.apply_poll(Ok(vec![task("T0", "PJ1")]), None, None);
    assert_eq!(app.selected, 0);
    assert_eq!(app.projects.len(), 3);
    app.selected = 7;
    app.clamp_selected();
    assert_eq!(app.selected, 0);
    app.next_tab();
    assert_eq!(app.tab, Tab::Projects);
    assert_eq!(app.list_len(), 3);
    app.select_next();
    app.prev_tab();
    assert_eq!(app.tab, Tab::Tasks);
    assert_eq!(app.selected, 0);
    app.prev_tab();
    assert_eq!(app.tab, Tab::Logs);
    assert_eq!(app.list_len(), 0);
    app.select_next();
    assert_eq!(app.selected, 0);
    app.select_tab(2);
    assert_eq!(app.tab, Tab::Environments);
    assert_eq!(app.list_len(), 2);
    app.select_tab(9);
    assert_eq!(app.tab, Tab::Environments);
    app.select_tab(3);
    assert_eq!(app.list_len(), 0);
}

#[test]
fn a_failed_poll_keeps_the_lists() {
    let mut app = loaded(TaskViewMode::Flat);
    assert!(app.daemon_connected);
    assert_eq!(app.error, None);
    app.apply_poll(Err("connection refused".into()), None, None);
    assert!(!app.daemon_connected);
    assert_eq!(app.error.as_deref(), Some("daemon: connection refused"));
    assert_eq!(app.tasks.len(), 4);
    app.set_disconnected();
    assert_eq!(app.error.as_deref(), Some("daemon disconnected"));
}

#[test]
fn toggling_the_layout_resets_the_selection() {
    let mut app = loaded(TaskViewMode::Flat);
    app.selected = 2;
    app.toggle_task_view_mode();
    assert_eq!(app.task_view_mode, TaskViewMode::Tree);
    assert_eq!(app.selected, 0);
    assert_eq!(app.list_len(), 10);
    app.toggle_task_view_mode();
    assert_eq!(app.task_view_mode, TaskViewMode::Flat);
}

#[test]
fn selected_task_and_default_project() {
    let mut app = loaded(TaskViewMode::Flat);
    app.selected = 1;
    assert_eq!(app.selected_task_index(), Some(1));
    assert_eq!(app.default_project_id_for_new_task(), Some("PJ0"));
    app.selected = 4;
    assert_eq!(app.selected_task_index(), None);
    assert_eq!(app.default_project_id_for_new_task(), None);
    app.toggle_task_view_mode();
    app.selected = 3;
    assert_eq!(app.selected_task_index(), None);
    assert_eq!(app.default_project_id_for_new_task(), Some("PJ1"));
    app.selected = 6;
    assert_eq!(app.selected_task_index(), Some(2));
    assert_eq!(app.default_project_id_for_new_task(), Some("PJ1"));
    app.selected = 9;
    assert_eq!(app.selected_task_index(), None);
    assert_eq!(app.default_project_id_for_new_task(), Some("gone"));
    app.tab = Tab::Projects;
    assert_eq!(app.default_project_id_for_new_task(), None);
}

#[test]
fn create_task_prompt() {
    let mut app = loaded(TaskViewMode::Flat);
    app.selected = 0;
    app.begin_create_task_prompt();
    assert_eq!(app.create_task_prompt.as_ref().unwrap().selected_project, 1);
    assert_eq!(app.create_task_prompt_selected_project().unwrap().name, "one");
    app.create_task_prompt_select_next();
    app.create_task_prompt_select_next();
    assert_eq!(app.create_task_prompt.as_ref().unwrap().selected_project, 2);
    app.create_task_prompt_select_prev();
    app.create_task_prompt_select_prev();
    app.create_task_prompt_select_prev();
    assert_eq!(app.create_task_prompt.as_ref().unwrap().selected_project, 0);
    let chosen = app.accept_create_task_prompt().unwrap();
    assert_eq!(chosen.id, "PJ0");
    assert!(app.create_task_prompt.is_none());
    // the task of an unknown project starts the prompt on the first project
    app.selected = 3;
    app.begin_create_task_prompt();
    assert_eq!(app.create_task_prompt.as_ref().unwrap().selected_project, 0);
    app.cancel_create_task_prompt();
    assert!(app.create_task_prompt.is_none());
    app.create_task_prompt_select_next();
    assert!(app.create_task_prompt_selected_project().is_none());
    // the project vanished while the prompt was open
    app.begin_create_task_prompt();
    app.projects.clear();
    assert!(app.accept_create_task_prompt().is_none());
    assert_eq!(app.error.as_deref(), Some("selected project is no longer available"));
    // without projects, or off the task tab, no prompt opens
    app.begin_create_task_prompt();
    assert!(app.create_task_prompt.is_none());
    assert_eq!(app.error.as_deref(), Some("no projects available"));
    let mut other = loaded(TaskViewMode::Flat);
    other.tab = Tab::Projects;
    other.begin_create_task_prompt();
    assert!(other.create_task_prompt.is_none());
    assert_eq!(other.error, None);
}

#[test]
fn detail_view_and_log_scrolling() {
    let mut app = loaded(TaskViewMode::Flat);
    app.selected = 2;
    let target = app.detail_target().unwrap();
    assert!(matches!(&target, DetailView::TaskLog { task_id } if task_id == "T2"));
    app.enter_detail(target, "a\nb\nc\n".into());
    assert_eq!(app.log_scroll, 2);
    app.scroll_log_up(1);
    assert_eq!(app.log_scroll, 1);
    app.scroll_log_up(20);
    assert_eq!(app.log_scroll, 0);
    app.scroll_log_down(1);
    assert_eq!(app.log_scroll, 1);
    app.scroll_log_down(usize::MAX);
    assert_eq!(app.log_scroll, 2);
    app.scroll_log_top();
    assert_eq!(app.log_scroll, 0);
    // not at the bottom: the position stays
    app.refresh_detail_logs("a\nb\nc\nd\ne".into());
    assert_eq!(app.log_scroll, 0);
    app.scroll_log_bottom();
    assert_eq!(app.log_scroll, 4);
    // at the bottom: the view follows
    app.refresh_detail_logs("a\nb\nc\nd\ne\nf\ng".into());
    assert_eq!(app.log_scroll, 6);
    app.refresh_detail_logs("a".into());
    assert_eq!(app.log_scroll, 0);
    app.refresh_detail_logs(String::new());
    assert_eq!(app.log_scroll, 0);
    app.exit_detail();
    assert!(app.detail.is_none());
    assert_eq!(app.log_content, "");
    app.refresh_detail_logs("ignored".into());
    assert_eq!(app.log_content, "");

    app.tab = Tab::Environments;
    app.selected = 1;
    assert!(matches!(app.detail_target(), Some(DetailView::EnvironmentLog { env_id }) if env_id == "E1"));
    app.selected = 5;
    assert!(app.detail_target().is_none());
    app.tab = Tab::Projects;
    app.selected = 0;
    assert!(app.detail_target().is_none());
}

#[test]
fn own_log_scrolling() {
    let mut app = App::new(TaskViewMode::Flat);
    app.refresh_tui_logs("1\n2\n3\n\n".into());
    assert_eq!(app.tui_log_scroll, 3);
    app.scroll_tui_log_up(2);
    assert_eq!(app.tui_log_scroll, 1);
    app.refresh_tui_logs("1\n2\n3\n4\n5\n6".into());
    assert_eq!(app.tui_log_scroll, 1);
    app.scroll_tui_log_down(20);
    assert_eq!(app.tui_log_scroll, 5);
    app.scroll_tui_log_top();
    assert_eq!(app.tui_log_scroll, 0);
    app.scroll_tui_log_bottom();
    assert_eq!(app.tui_log_scroll, 5);
    app.refresh_tui_logs("\r\n".into());
    assert_eq!(app.tui_log_scroll, 0);
}

#[test]
fn delete_confirmation() {
    let mut app = loaded(TaskViewMode::Flat);
    app.selected = 1;
    app.prompt_delete();
    assert!(matches!(
        &app.confirm,
        Some(Confirm::DeleteTask { task_id, skip_provider: false }) if task_id == "T1"
    ));
    app.cancel_confirm();
    assert!(app.confirm.is_none());
    app.prompt_force_delete();
    let taken = app.confirm_delete();
    assert!(matches!(taken, Some(Confirm::DeleteTask { skip_provider: true, .. })));
    assert!(app.confirm.is_none());
    assert!(app.confirm_delete().is_none());
    app.delete_finished(&Err("nope".into()));
    assert_eq!(app.error.as_deref(), Some("delete failed: nope"));
    app.delete_finished(&Ok(()));
    assert_eq!(app.error, None);

    app.tab = Tab::Projects;
    app.selected = 2;
    app.prompt_force_delete();
    assert!(matches!(&app.confirm, Some(Confirm::DeleteProject { project_name }) if project_name == "empty"));
    app.cancel_confirm();
    app.tab = Tab::Environments;
    app.selected = 0;
    app.prompt_delete_with_options(true);
    assert!(matches!(
        &app.confirm,
        Some(Confirm::DeleteEnvironment { env_id, skip_provider: true }) if env_id == "E0"
    ));
    app.cancel_confirm();
    app.selected = 9;
    app.prompt_delete();
    assert!(app.confirm.is_none());
    app.tab = Tab::Daemon;
    app.prompt_delete();
    assert!(app.confirm.is_none());
}

#[test]
fn lookups() {
    let app = loaded(TaskViewMode::Flat);
    assert_eq!(app.project_name("PJ1"), "one");
    assert_eq!(app.project_name("gone"), "-");
    assert_eq!(app.find_environment("E1").unwrap().project_id, "PJ1");
    assert!(app.find_environment("E9").is_none());
    let focus = app.focus();
    assert_eq!(focus, Focus { confirm: false, prompt: false, detail: false, tab: Tab::Tasks });
}

#[test]
fn keys_by_focus() {
    let base = Focus { confirm: false, prompt: false, detail: false, tab: Tab::Tasks };
    let confirm = Focus { confirm: true, prompt: true, detail: true, ..base };
    assert_eq!(handle_key(confirm, Key::Char('y'), false), Action::ConfirmDelete);
    assert_eq!(handle_key(confirm, Key::Char('n'), false), Action::CancelConfirm);
    assert_eq!(handle_key(confirm, Key::Esc, false), Action::CancelConfirm);
    assert_eq!(handle_key(confirm, Key::Char('q'), false), Action::Nothing);
    let prompt = Focus { prompt: true, detail: true, ..base };
    assert_eq!(handle_key(prompt, Key::Down, false), Action::PromptNext);
    assert_eq!(handle_key(prompt, Key::Char('k'), false), Action::PromptPrev);
    assert_eq!(handle_key(prompt, Key::Enter, false), Action::PromptAccept);
    assert_eq!(handle_key(prompt, Key::Char('q'), false), Action::PromptCancel);
    assert_eq!(handle_key(prompt, Key::Tab, false), Action::Nothing);
    let detail = Focus { detail: true, ..base };
    assert_eq!(handle_key(detail, Key::Char('q'), false), Action::ExitDetail);
    assert_eq!(handle_key(detail, Key::Char('j'), false), Action::ScrollLogDown(1));
    assert_eq!(handle_key(detail, Key::Up, false), Action::ScrollLogUp(1));
    assert_eq!(handle_key(detail, Key::Char('d'), false), Action::ScrollLogDown(20));
    assert_eq!(handle_key(detail, Key::Char('u'), false), Action::ScrollLogUp(20));
    assert_eq!(handle_key(detail, Key::Char('g'), false), Action::ScrollLogTop);
    assert_eq!(handle_key(detail, Key::Char('G'), false), Action::ScrollLogBottom);
    assert_eq!(handle_key(detail, Key::Char('1'), false), Action::Nothing);
}

#[test]
fn keys_by_tab() {
    let on = |tab| Focus { confirm: false, prompt: false, detail: false, tab };
    for tab in Tab::all() {
        assert_eq!(handle_key(on(tab), Key::Char('q'), false), Action::Quit);
        assert_eq!(handle_key(on(tab), Key::Char('c'), true), Action::Quit);
        assert_eq!(handle_key(on(tab), Key::Tab, false), Action::NextTab);
        assert_eq!(handle_key(on(tab), Key::BackTab, false), Action::PrevTab);
        assert_eq!(handle_key(on(tab), Key::Char('3'), false), Action::SelectTab(2));
        assert_eq!(handle_key(on(tab), Key::Char('5'), false), Action::SelectTab(4));
        assert_eq!(handle_key(on(tab), Key::Char('6'), false), Action::Nothing);
        assert_eq!(handle_key(on(tab), Key::Char('c'), false), Action::Nothing);
        assert_eq!(handle_key(on(tab), Key::Other, false), Action::Nothing);
    }
    let tasks = on(Tab::Tasks);
    assert_eq!(handle_key(tasks, Key::Char('j'), false), Action::SelectNext);
    assert_eq!(handle_key(tasks, Key::Up, false), Action::SelectPrev);
    assert_eq!(handle_key(tasks, Key::Left, false), Action::Collapse);
    assert_eq!(handle_key(tasks, Key::Char('l'), false), Action::Expand);
    assert_eq!(handle_key(tasks, Key::Char('H'), false), Action::CollapseAll);
    assert_eq!(handle_key(tasks, Key::Char('L'), false), Action::ExpandAll);
    assert_eq!(handle_key(tasks, Key::Enter, false), Action::EnterDetail);
    assert_eq!(handle_key(tasks, Key::Char('d'), false), Action::PromptDelete);
    assert_eq!(handle_key(tasks, Key::Char('D'), false), Action::PromptForceDelete);
    assert_eq!(handle_key(tasks, Key::Char('n'), false), Action::NewTask);
    assert_eq!(handle_key(tasks, Key::Char('`'), false), Action::ToggleViewMode);
    let projects = on(Tab::Projects);
    assert_eq!(handle_key(projects, Key::Enter, false), Action::Nothing);
    assert_eq!(handle_key(projects, Key::Char('d'), false), Action::PromptDelete);
    assert_eq!(handle_key(projects, Key::Char('n'), false), Action::Nothing);
    assert_eq!(handle_key(projects, Key::Left, false), Action::Nothing);
    let environments = on(Tab::Environments);
    assert_eq!(handle_key(environments, Key::Enter, false), Action::EnterDetail);
    assert_eq!(handle_key(environments, Key::Char('D'), false), Action::PromptForceDelete);
    assert_eq!(handle_key(on(Tab::Daemon), Key::Char('j'), false), Action::Nothing);
    let logs = on(Tab::Logs);
    assert_eq!(handle_key(logs, Key::Down, false), Action::ScrollTuiLogDown(1));
    assert_eq!(handle_key(logs, Key::Char('k'), false), Action::ScrollTuiLogUp(1));
    assert_eq!(handle_key(logs, Key::Char('d'), false), Action::ScrollTuiLogDown(20));
    assert_eq!(handle_key(logs, Key::Char('u'), false), Action::ScrollTuiLogUp(20));
    assert_eq!(handle_key(logs, Key::Char('g'), false), Action::ScrollTuiLogTop);
    assert_eq!(handle_key(logs, Key::Char('G'), false), Action::ScrollTuiLogBottom);
    assert!(needs_full_redraw(Action::PromptAccept));
    assert!(!needs_full_redraw(Action::NewTask));
}

#[test]
fn editor_outcomes() {
    match editor_outcome("vi", true, "exit status: 0", "  fix the bug \n\n") {
        EditorOutcome::Submitted(d) => assert_eq!(d, "fix the bug"),
        other => panic!("unexpected outcome {other:?}"),
    }
    match editor_outcome("vi", true, "exit status: 0", " \n\t ") {
        EditorOutcome::Cancelled(r) => assert_eq!(r, "task description is empty"),
        other => panic!("unexpected outcome {other:?}"),
    }
    match editor_outcome("vi", false, "exit status: 1", "text") {
        EditorOutcome::Cancelled(r) => {
            assert_eq!(r, "task creation cancelled (vi exited with exit status: 1)")
        }
        other => panic!("unexpected outcome {other:?}"),
    }
    assert_eq!(editor_file_name("abc"), "work-task-abc.txt");
}

#[test]
fn screen_measures() {
    assert_eq!(short_id("0123456789abcdef"), "01234567");
    assert_eq!(short_id("01234567"), "01234567");
    assert_eq!(short_id("abc"), "abc");
    assert_eq!(short_id(""), "");
    assert_eq!(short_id("äöüäöüäöüä"), "äöüäöüäö");
    let frames: Vec<&str> = (0..5).map(spinner).collect();
    assert_eq!(frames, vec!["◐", "◓", "◑", "◒", "◐"]);
    assert_eq!(status_mark(TaskStatus::Pending, 0), ("●", StatusColor::Yellow));
    assert_eq!(status_mark(TaskStatus::Started, 2), ("◑", StatusColor::Blue));
    assert_eq!(status_mark(TaskStatus::Complete, 9), ("✓", StatusColor::Green));
    assert_eq!(status_mark(TaskStatus::Failed, 9), ("✗", StatusColor::Red));
    assert_eq!(scroll_top_for_bottom_follow(0, 10), 0);
    assert_eq!(scroll_top_for_bottom_follow(7, 10), 0);
    assert_eq!(scroll_top_for_bottom_follow(8, 10), 1);
    assert_eq!(scroll_top_for_bottom_follow(100, 10), 93);
    assert_eq!(scroll_top_for_bottom_follow(5, 2), 5);
    assert_eq!(scroll_top_for_bottom_follow(5, 0), 5);
    assert_eq!(scroll_top_for_bottom_follow(5, 3), 5);
    assert_eq!(scroll_top_for_bottom_follow(usize::MAX, 10), u16::MAX);
    let area = Area { x: 2, y: 1, width: 80, height: 24 };
    assert_eq!(centered_rect(40, 10, area), Area { x: 22, y: 8, width: 40, height: 10 });
    assert_eq!(centered_rect(100, 30, area), Area { x: 2, y: 1, width: 80, height: 24 });
    assert_eq!(centered_rect(79, 23, area), Area { x: 2, y: 1, width: 79, height: 23 });
    let edge = Area { x: u16::MAX, y: u16::MAX, width: 10, height: 10 };
    assert_eq!(centered_rect(2, 2, edge), Area { x: u16::MAX, y: u16::MAX, width: 2, height: 2 });
}
