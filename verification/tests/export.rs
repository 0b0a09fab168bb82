use pada::agent::export::{
    available_export_target, choose_export_target, ExportAction, ExportDialog, ExportEvent, ExportStep,
};
use pada::error::PadaError;
use pada::storage::DataStore;

fn store() -> DataStore {
    DataStore::new("/d".into())
}

fn line(s: &str) -> ExportEvent {
    ExportEvent::Line(Some(s.to_string()))
}

fn ask(a: ExportAction) -> String {
    match a {
        ExportAction::Ask(t) => t,
        other => panic!("expected a question, got {other:?}"),
    }
}

#[test]
fn free_target_is_taken_without_asking() {
    let r = available_export_target(&store(), "../x/run.json", false);
    assert_eq!(r, Ok("/d/sessions/exported/run.json".to_string()));
}

#[test]
fn existing_target_is_refused_without_asking() {
    let r = available_export_target(&store(), "run.json", true);
    assert_eq!(
        r,
        Err(PadaError::Config(
            "导出文件已存在: /d/sessions/exported/run.json。请更换 --save 文件名，或在导师模式中确认覆盖".to_string()
        ))
    );
}

#[test]
fn dialog_writes_a_free_target_at_once() {
    let s = store();
    let (mut d, a) = ExportDialog::new(&s, "a.json");
    assert!(matches!(a, ExportAction::Check(ref p) if p == "/d/sessions/exported/a.json"));
    let a = choose_export_target(&s, &mut d, ExportEvent::TargetExists(false));
    assert!(matches!(a, ExportAction::Write(ref p) if p == "/d/sessions/exported/a.json"));
}

#[test]
fn dialog_overwrites_only_after_yes() {
    let s = store();
    let (mut d, _) = ExportDialog::new(&s, "a.json");
    let q = ask(choose_export_target(&s, &mut d, ExportEvent::TargetExists(true)));
    assert_eq!(q, "导出文件已存在: /d/sessions/exported/a.json\n是否覆盖已有文件？[y/N]: ");
    assert_eq!(d.step, ExportStep::AskOverwrite);
    let q = ask(choose_export_target(&s, &mut d, line("maybe\n")));
    assert_eq!(q, "请输入 y 或 n。\n是否覆盖已有文件？[y/N]: ");
    let a = choose_export_target(&s, &mut d, line(" YES \n"));
    assert!(matches!(a, ExportAction::Write(ref p) if p == "/d/sessions/exported/a.json"));
}

#[test]
fn dialog_asks_for_a_new_name_after_no() {
    let s = store();
    let (mut d, _) = ExportDialog::new(&s, "a.json");
    choose_export_target(&s, &mut d, ExportEvent::TargetExists(true));
    let q = ask(choose_export_target(&s, &mut d, line("\n")));
    assert_eq!(q, "请输入新的导出文件名: ");
    let q = ask(choose_export_target(&s, &mut d, line("   \n")));
    assert_eq!(q, "文件名不能为空。\n请输入新的导出文件名: ");
    let a = choose_export_target(&s, &mut d, line(" b.json\n"));
    assert!(matches!(a, ExportAction::Check(ref p) if p == "/d/sessions/exported/b.json"));
    assert_eq!(d.requested, "b.json");
    assert_eq!(d.step, ExportStep::CheckTarget);
    let a = choose_export_target(&s, &mut d, ExportEvent::TargetExists(false));
    assert!(matches!(a, ExportAction::Write(ref p) if p == "/d/sessions/exported/b.json"));
}

#[test]
fn dialog_gives_up_when_input_ends() {
    let s = store();
    let (mut d, _) = ExportDialog::new(&s, "a.json");
    choose_export_target(&s, &mut d, ExportEvent::TargetExists(true));
    let a = choose_export_target(&s, &mut d, ExportEvent::Line(None));
    assert!(matches!(a, ExportAction::Fail(PadaError::Config(ref m)) if m == "导出文件名输入提前结束"));
}
