use writer::editor::{Command, Editor, OpenPanelSettings, MODAL_RESPONSE_OK, NIL};

fn s(x: &str) -> String {
    x.to_string()
}

fn ready() -> Editor {
    let mut e = Editor::new();
    let cmds = e.window_created(11, 22);
    assert_eq!(cmds, vec![Command::SetTitle(s("Untitled"))]);
    e
}

#[test]
fn new_editor_has_nothing() {
    let e = Editor::new();
    assert_eq!(e.text_view(), NIL);
    assert_eq!(e.window(), NIL);
    assert_eq!(e.file_path(), None);
    assert_eq!(e.update_title(), None);
}

#[test]
fn window_created_keeps_handles_and_titles() {
    let e = ready();
    assert_eq!(e.text_view(), 11);
    assert_eq!(e.window(), 22);
    assert_eq!(e.update_title(), Some(s("Untitled")));
}

#[test]
fn window_created_without_window_sets_no_title() {
    let mut e = Editor::new();
    assert_eq!(e.window_created(11, NIL), vec![]);
}

#[test]
fn new_document_without_text_view_does_nothing() {
    let mut e = Editor::new();
    assert_eq!(e.new_document(), vec![]);
    assert_eq!(e.file_path(), None);
}

#[test]
fn new_document_clears_text_and_file() {
    let mut e = ready();
    e.open_finished(s("/tmp/a.txt"), Ok(s("hello")));
    assert_eq!(
        e.new_document(),
        vec![Command::SetText(String::new()), Command::SetTitle(s("Untitled"))]
    );
    assert_eq!(e.file_path(), None);
}

#[test]
fn open_runs_panel_then_reads_after_ok() {
    let e = ready();
    assert_eq!(
        e.open_document(),
        vec![Command::RunOpenPanel(OpenPanelSettings {
            allows_multiple_selection: false,
            can_choose_directories: false,
            can_choose_files: true,
        })]
    );
    assert_eq!(e.open_panel_closed(MODAL_RESPONSE_OK), vec![Command::ReadChosenFile]);
    assert_eq!(e.open_panel_closed(0), vec![]);
}

#[test]
fn open_success_shows_text_and_title() {
    let mut e = ready();
    let cmds = e.open_finished(s("/Users/me/notes.txt"), Ok(s("line one\n")));
    assert_eq!(cmds, vec![Command::SetText(s("line one\n")), Command::SetTitle(s("notes.txt"))]);
    assert_eq!(e.file_path(), Some(s("/Users/me/notes.txt")));
}

#[test]
fn open_failure_alerts_and_changes_nothing() {
    let mut e = ready();
    e.save_target_chosen(s("/tmp/kept.txt"));
    let cmds = e.open_finished(s("/tmp/missing.txt"), Err(s("No such file or directory (os error 2)")));
    assert_eq!(
        cmds,
        vec![Command::ShowAlert(s("Could not open file:\nNo such file or directory (os error 2)"))]
    );
    assert_eq!(e.file_path(), Some(s("/tmp/kept.txt")));
}

#[test]
fn save_without_file_runs_save_panel() {
    let e = ready();
    assert_eq!(e.save_document(), vec![Command::RunSavePanel]);
    assert_eq!(e.save_document_as(), vec![Command::RunSavePanel]);
}

#[test]
fn save_panel_ok_takes_the_path_cancel_does_nothing() {
    let e = ready();
    assert_eq!(e.save_panel_closed(MODAL_RESPONSE_OK), vec![Command::TakeChosenSavePath]);
    assert_eq!(e.save_panel_closed(0), vec![]);
    assert_eq!(e.save_panel_closed(-1), vec![]);
}

#[test]
fn save_as_writes_then_retitles() {
    let mut e = ready();
    let cmds = e.save_target_chosen(s("/tmp/out.txt"));
    assert_eq!(
        cmds,
        vec![Command::WriteText(s("/tmp/out.txt")), Command::SetTitle(s("out.txt"))]
    );
    assert_eq!(e.file_path(), Some(s("/tmp/out.txt")));
}

#[test]
fn save_after_save_as_writes_to_same_file() {
    let mut e = ready();
    e.save_target_chosen(s("/tmp/out.txt"));
    assert_eq!(e.save_document(), vec![Command::WriteText(s("/tmp/out.txt"))]);
}

#[test]
fn save_after_open_writes_back() {
    let mut e = ready();
    e.open_finished(s("/tmp/in.txt"), Ok(s("x")));
    assert_eq!(e.save_document(), vec![Command::WriteText(s("/tmp/in.txt"))]);
}

#[test]
fn save_after_new_asks_for_file() {
    let mut e = ready();
    e.save_target_chosen(s("/tmp/out.txt"));
    e.new_document();
    assert_eq!(e.save_document(), vec![Command::RunSavePanel]);
}

#[test]
fn write_failure_alerts() {
    let e = ready();
    assert_eq!(e.write_finished(Ok(())), vec![]);
    assert_eq!(
        e.write_finished(Err(s("Permission denied (os error 13)"))),
        vec![Command::ShowAlert(s("Could not save file:\nPermission denied (os error 13)"))]
    );
}

#[test]
fn quits_after_last_window_closes() {
    assert!(ready().should_terminate_after_last_window_closed());
}
