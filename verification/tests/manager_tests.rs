use sakawa::manager::{Location, MirrorAction, SakawaApp, APPEND_ROW, AVAILABLE_COL, INSTALLED_COL};

fn s(x: &str) -> String {
    x.to_string()
}

fn app_with_columns(available: Vec<String>, installed: Vec<String>) -> SakawaApp {
    let mut app = SakawaApp::default();
    app.columns = vec![available, installed];
    app
}

#[test]
fn scenario_a_synchronize_dedups() {
    let mut app = SakawaApp::default();
    app.synchronize(
        Some(vec![s("a.pak"), s("b.pak")]),
        Some(vec![s("b.pak")]),
    );
    assert_eq!(app.columns, vec![vec![s("a.pak")], vec![s("b.pak")]]);
}

#[test]
fn scenario_b_append_drop_installs() {
    let mut app = SakawaApp::default();
    app.synchronize(
        Some(vec![s("a.pak"), s("b.pak")]),
        Some(vec![s("b.pak")]),
    );
    let action = app.apply_move(
        Location { col: AVAILABLE_COL, row: 0 },
        Location { col: INSTALLED_COL, row: APPEND_ROW },
    );
    assert_eq!(app.columns[AVAILABLE_COL], Vec::<String>::new());
    assert_eq!(app.columns[INSTALLED_COL], vec![s("b.pak"), s("a.pak")]);
    assert_eq!(action, Some(MirrorAction::Install(s("a.pak"))));
}

#[test]
fn scenario_c_same_column_index_adjustment() {
    let mut app = app_with_columns(vec![s("x"), s("y"), s("z")], Vec::new());
    let action = app.apply_move(
        Location { col: AVAILABLE_COL, row: 0 },
        Location { col: AVAILABLE_COL, row: 2 },
    );
    assert_eq!(app.columns[AVAILABLE_COL], vec![s("y"), s("x"), s("z")]);
    assert_eq!(action, None);
}

#[test]
fn scenario_d_missing_mods_directory_is_empty() {
    let mut app = SakawaApp::default();
    app.synchronize(None, Some(vec![s("b.pak")]));
    assert_eq!(app.columns, vec![Vec::<String>::new(), vec![s("b.pak")]]);
}

#[test]
fn synchronize_both_directories_missing() {
    let mut app = SakawaApp::default();
    app.synchronize(None, None);
    assert_eq!(app.columns, vec![Vec::<String>::new(), Vec::<String>::new()]);
}

#[test]
fn synchronize_never_shows_shared_name_as_available() {
    let mut app = SakawaApp::default();
    app.synchronize(
        Some(vec![s("m.pak"), s("n.pak"), s("m.pak")]),
        Some(vec![s("m.pak"), s("o.pak")]),
    );
    assert!(!app.columns[AVAILABLE_COL].contains(&s("m.pak")));
    assert!(app.columns[INSTALLED_COL].contains(&s("m.pak")));
    assert_eq!(app.columns[AVAILABLE_COL], vec![s("n.pak")]);
}

#[test]
fn synchronize_is_idempotent() {
    let mut app = SakawaApp::default();
    let mods = vec![s("a.pak"), s("b.pak"), s("c.pak")];
    let installed = vec![s("b.pak")];
    app.synchronize(Some(mods.clone()), Some(installed.clone()));
    let first = app.columns.clone();
    app.synchronize(Some(mods), Some(installed));
    assert_eq!(app.columns, first);
}

#[test]
fn synchronize_keeps_in_memory_moves() {
    let mut app = app_with_columns(vec![s("a")], vec![s("b")]);
    app.synchronize(Some(vec![s("a"), s("b"), s("c")]), Some(Vec::new()));
    assert_eq!(app.columns, vec![vec![s("a")], vec![s("b")]]);
}

#[test]
fn same_column_reorder_keeps_items_drag_up() {
    let mut app = app_with_columns(vec![s("x"), s("y"), s("z")], Vec::new());
    app.apply_move(
        Location { col: AVAILABLE_COL, row: 2 },
        Location { col: AVAILABLE_COL, row: 0 },
    );
    assert_eq!(app.columns[AVAILABLE_COL], vec![s("z"), s("x"), s("y")]);
}

#[test]
fn same_column_append_moves_to_end() {
    let mut app = app_with_columns(vec![s("x"), s("y"), s("z")], Vec::new());
    app.apply_move(
        Location { col: AVAILABLE_COL, row: 0 },
        Location { col: AVAILABLE_COL, row: APPEND_ROW },
    );
    assert_eq!(app.columns[AVAILABLE_COL], vec![s("y"), s("z"), s("x")]);
}

#[test]
fn same_column_drop_on_itself_is_a_no_op() {
    let mut app = app_with_columns(vec![s("x"), s("y")], Vec::new());
    let action = app.apply_move(
        Location { col: AVAILABLE_COL, row: 1 },
        Location { col: AVAILABLE_COL, row: 1 },
    );
    assert_eq!(app.columns[AVAILABLE_COL], vec![s("x"), s("y")]);
    assert_eq!(action, None);
}

#[test]
fn cross_column_conserves_total_count() {
    let mut app = app_with_columns(vec![s("a"), s("b")], vec![s("c")]);
    let before = app.columns[0].len() + app.columns[1].len();
    app.apply_move(
        Location { col: AVAILABLE_COL, row: 1 },
        Location { col: INSTALLED_COL, row: 0 },
    );
    assert_eq!(app.columns[0].len() + app.columns[1].len(), before);
    assert_eq!(app.columns[AVAILABLE_COL], vec![s("a")]);
    assert_eq!(app.columns[INSTALLED_COL], vec![s("b"), s("c")]);
}

#[test]
fn cross_column_row_is_clamped_to_destination_length() {
    let mut app = app_with_columns(vec![s("a")], vec![s("b")]);
    app.apply_move(
        Location { col: AVAILABLE_COL, row: 0 },
        Location { col: INSTALLED_COL, row: 5 },
    );
    assert_eq!(app.columns[INSTALLED_COL], vec![s("b"), s("a")]);
}

#[test]
fn uninstall_action_when_leaving_installed_column() {
    let mut app = app_with_columns(vec![s("a")], vec![s("b")]);
    let action = app.apply_move(
        Location { col: INSTALLED_COL, row: 0 },
        Location { col: AVAILABLE_COL, row: 0 },
    );
    assert_eq!(app.columns[AVAILABLE_COL], vec![s("b"), s("a")]);
    assert_eq!(app.columns[INSTALLED_COL], Vec::<String>::new());
    assert_eq!(action, Some(MirrorAction::Uninstall(s("b"))));
}

#[test]
fn move_action_reports_without_mutating() {
    let app = app_with_columns(vec![s("a")], vec![s("b")]);
    let action = app.move_action(
        Location { col: AVAILABLE_COL, row: 0 },
        Location { col: INSTALLED_COL, row: APPEND_ROW },
    );
    assert_eq!(action, Some(MirrorAction::Install(s("a"))));
    assert_eq!(app.columns, vec![vec![s("a")], vec![s("b")]]);
}

#[test]
fn load_available_mods_remembers_listing() {
    let mut app = SakawaApp::default();
    let mods = app.load_available_mods(Some(vec![s("a.pak")]));
    assert_eq!(mods, Some(vec![s("a.pak")]));
    assert_eq!(app.available_mods, Some(vec![s("a.pak")]));
}

#[test]
fn load_available_mods_missing_directory() {
    let mut app = SakawaApp::default();
    let mods = app.load_available_mods(None);
    assert_eq!(mods, None);
    assert_eq!(app.available_mods, None);
}

#[test]
fn load_installed_mods_replaces_previous_listing() {
    let mut app = SakawaApp::default();
    app.installed_mods = vec![s("stale.pak")];
    let mods = app.load_installed_mods(Some(vec![s("b.pak")]));
    assert_eq!(mods, Some(vec![s("b.pak")]));
    assert_eq!(app.installed_mods, vec![s("b.pak")]);
}

#[test]
fn load_installed_mods_missing_directory_is_empty() {
    let mut app = SakawaApp::default();
    app.installed_mods = vec![s("stale.pak")];
    let mods = app.load_installed_mods(None);
    assert_eq!(mods, Some(Vec::new()));
    assert_eq!(app.installed_mods, Vec::<String>::new());
}

#[test]
fn set_mods_path_forces_a_rebuild() {
    let mut app = app_with_columns(vec![s("a")], vec![s("b")]);
    app.available_mods = Some(vec![s("a")]);
    app.set_mods_path(s("elsewhere"));
    assert_eq!(app.config.mods_path, s("elsewhere"));
    assert_eq!(app.available_mods, None);
    assert!(app.columns.is_empty());
}

#[test]
fn set_game_path_keeps_columns() {
    let mut app = app_with_columns(vec![s("a")], vec![s("b")]);
    app.set_game_path(s("game-root"));
    assert_eq!(app.config.game_path, s("game-root"));
    assert_eq!(app.columns, vec![vec![s("a")], vec![s("b")]]);
}
