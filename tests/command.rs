use llama_bot::command::{answers_message, normalize_temperature, plan_for, shows_full_help, Command};
use llama_bot::storage::factory::{choose_backend, wants_durable, BackendKind};

#[test]
fn open_commands_run_everywhere() {
    for cmd in [Command::Start, Command::Help, Command::Chat("x".to_string()), Command::Future] {
        let p = plan_for(&cmd, false, false);
        assert!(p.run && !p.delete_command && !p.confirm);
    }
}

#[test]
fn settings_commands_are_managed() {
    let cmd = Command::System("persona".to_string());
    let group_member = plan_for(&cmd, false, false);
    assert!(!group_member.run && !group_member.delete_command && !group_member.confirm);
    let group_admin = plan_for(&cmd, false, true);
    assert!(group_admin.run && group_admin.delete_command && !group_admin.confirm);
    let private = plan_for(&cmd, true, false);
    assert!(private.run && !private.delete_command && private.confirm);
}

#[test]
fn note_commands_delete_but_do_not_confirm() {
    let p = plan_for(&Command::RemoveNote(3), false, true);
    assert!(p.run && p.delete_command && !p.confirm);
    let p = plan_for(&Command::ListNotes, true, false);
    assert!(p.run && !p.delete_command && !p.confirm);
}

#[test]
fn enablement_commands_keep_the_message() {
    let p = plan_for(&Command::Disable, false, true);
    assert!(p.run && !p.delete_command && !p.confirm);
    let p = plan_for(&Command::EraseNotes, false, false);
    assert!(!p.run);
}

#[test]
fn help_detail() {
    assert!(shows_full_help(true, false));
    assert!(shows_full_help(false, true));
    assert!(!shows_full_help(false, false));
}

#[test]
fn temperature_outside_range_falls_back() {
    assert_eq!(normalize_temperature(50), 50);
    assert_eq!(normalize_temperature(0), 0);
    assert_eq!(normalize_temperature(200), 200);
    assert_eq!(normalize_temperature(201), 70);
    assert_eq!(normalize_temperature(-1), 70);
    assert_eq!(normalize_temperature(i64::MIN), 70);
}

#[test]
fn backend_choice() {
    assert!(matches!(choose_backend(Some(true), true), BackendKind::Durable));
    assert!(matches!(choose_backend(Some(true), false), BackendKind::Memory));
    assert!(matches!(choose_backend(Some(false), true), BackendKind::Memory));
    assert!(matches!(choose_backend(None, true), BackendKind::Memory));
    assert!(wants_durable(Some(true)));
    assert!(!wants_durable(None));
}

#[test]
fn which_messages_are_answered() {
    assert!(answers_message(false, true, false, false));
    assert!(answers_message(false, false, true, true));
    assert!(!answers_message(false, false, true, false));
    assert!(!answers_message(false, false, false, true));
    assert!(!answers_message(true, false, true, true));
}
