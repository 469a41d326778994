use notepad0::command::Command;
use notepad0::host::{AboutDialog, Broadcast, DispatchError, Host, Phase, Reply, StartError};
use notepad0::menu::{main_menu, MenuEntry, MenuItem};
use notepad0::text_path::{text_path_or_sentinel, CliTextPath, PublishError};

fn running_host(text_file: Option<&str>) -> Host {
    let mut host = Host::new();
    host.publish_text_path(text_file.map(|s| s.to_string())).unwrap();
    host.start().unwrap();
    host
}

fn call(host: &Host, name: &str) -> Result<Reply, DispatchError> {
    host.invoke(name, "main", "notepad0", "1.2.3")
}

#[test]
fn no_argument_reads_empty_path() {
    let host = running_host(None);
    assert_eq!(call(&host, "get_cli_text_path"), Ok(Reply::TextPath(String::new())));
    assert_eq!(host.get_cli_text_path(), "");
}

#[test]
fn file_argument_reads_back_unchanged() {
    let host = running_host(Some("notes.txt"));
    assert_eq!(call(&host, "get_cli_text_path"), Ok(Reply::TextPath("notes.txt".to_string())));
    assert_eq!(host.get_cli_text_path(), "notes.txt");
}

#[test]
fn path_with_spaces_and_unicode_reads_back_unchanged() {
    let host = running_host(Some("/home/user/メモ 1.txt"));
    assert_eq!(host.get_cli_text_path(), "/home/user/メモ 1.txt");
}

#[test]
fn file_open_activation_broadcasts_once() {
    let host = running_host(None);
    let sent = host.menu_activated("menu_file_open");
    assert_eq!(
        sent,
        vec![Broadcast { channel: "back-to-front".to_string(), payload: "menu_file_open".to_string() }]
    );
}

#[test]
fn every_menu_item_broadcasts_its_own_id() {
    let host = running_host(None);
    for submenu in main_menu() {
        for entry in submenu.entries {
            if let MenuEntry::Item(item) = entry {
                let sent = host.menu_activated(&item.id);
                assert_eq!(sent.len(), 1);
                assert_eq!(sent[0].channel, "back-to-front");
                assert_eq!(sent[0].payload, item.id);
            }
        }
    }
}

#[test]
fn menu_activation_before_start_sends_nothing() {
    let host = Host::new();
    assert!(host.menu_activated("menu_file_open").is_empty());
}

#[test]
fn exit_activation_then_command_exits_zero() {
    let mut host = running_host(None);
    let sent = host.menu_activated("menu_file_exit");
    assert_eq!(sent.len(), 1);
    assert_eq!(sent[0].payload, "menu_file_exit");
    assert_eq!(call(&host, "menu_file_exit"), Ok(Reply::CloseWindow("main".to_string())));
    assert_eq!(host.window_closed("main"), Some(0));
    assert_eq!(host.phase(), Phase::Terminating);
    assert_eq!(call(&host, "get_cli_text_path"), Err(DispatchError::NotRunning));
}

#[test]
fn closing_another_window_does_not_end_the_loop() {
    let mut host = running_host(None);
    assert_eq!(host.window_closed("other"), None);
    assert_eq!(host.phase(), Phase::Running);
}

#[test]
fn version_dialog_content() {
    let host = running_host(None);
    assert_eq!(
        call(&host, "menu_help_about"),
        Ok(Reply::ShowAbout(AboutDialog {
            parent: "main".to_string(),
            title: "バージョン情報".to_string(),
            body: "notepad0 1.2.3".to_string(),
        }))
    );
}

#[test]
fn unknown_command_is_refused_without_effect() {
    let host = running_host(Some("a.txt"));
    assert_eq!(call(&host, "menu_file_open"), Err(DispatchError::UnknownCommand));
    assert_eq!(call(&host, ""), Err(DispatchError::UnknownCommand));
    assert_eq!(call(&host, "GET_CLI_TEXT_PATH"), Err(DispatchError::UnknownCommand));
    assert_eq!(host.phase(), Phase::Running);
    assert_eq!(host.get_cli_text_path(), "a.txt");
}

#[test]
fn unknown_command_is_refused_before_start() {
    let host = Host::new();
    assert_eq!(call(&host, "no_such_command"), Err(DispatchError::UnknownCommand));
}

#[test]
fn commands_are_refused_before_start() {
    let mut host = Host::new();
    host.publish_text_path(Some("a.txt".to_string())).unwrap();
    assert_eq!(call(&host, "get_cli_text_path"), Err(DispatchError::NotRunning));
    assert_eq!(call(&host, "menu_file_exit"), Err(DispatchError::NotRunning));
}

#[test]
fn second_publication_is_refused_and_first_path_kept() {
    let mut host = Host::new();
    assert_eq!(host.publish_text_path(Some("first.txt".to_string())), Ok(()));
    assert_eq!(
        host.publish_text_path(Some("second.txt".to_string())),
        Err(PublishError::AlreadyPublished)
    );
    assert_eq!(host.publish_text_path(None), Err(PublishError::AlreadyPublished));
    host.start().unwrap();
    assert_eq!(host.get_cli_text_path(), "first.txt");
    assert_eq!(host.get_cli_text_path(), "first.txt");
}

#[test]
fn start_needs_publication_and_happens_once() {
    let mut host = Host::new();
    assert_eq!(host.start(), Err(StartError::NotPublished));
    assert_eq!(host.phase(), Phase::PreInit);
    host.publish_text_path(None).unwrap();
    assert_eq!(host.start(), Ok(()));
    assert_eq!(host.phase(), Phase::Running);
    assert_eq!(host.start(), Err(StartError::AlreadyStarted));
}

#[test]
fn cli_text_path_cell_is_write_once() {
    let mut cell = CliTextPath::new();
    assert_eq!(cell.get(), None);
    assert_eq!(cell.publish(Some("x.txt".to_string())), Ok(()));
    assert_eq!(cell.get(), Some("x.txt".to_string()));
    assert_eq!(cell.publish(Some("y.txt".to_string())), Err(PublishError::AlreadyPublished));
    assert_eq!(cell.get(), Some("x.txt".to_string()));
}

#[test]
fn missing_file_becomes_empty_sentinel() {
    assert_eq!(text_path_or_sentinel(None), "");
    assert_eq!(text_path_or_sentinel(Some("b.txt".to_string())), "b.txt");
}

#[test]
fn command_names_round_trip() {
    for c in [Command::GetCliTextPath, Command::MenuFileExit, Command::MenuHelpAbout] {
        assert_eq!(Command::from_name(&c.name()), Some(c));
    }
    assert_eq!(Command::GetCliTextPath.name(), "get_cli_text_path");
    assert_eq!(Command::MenuFileExit.name(), "menu_file_exit");
    assert_eq!(Command::MenuHelpAbout.name(), "menu_help_about");
    assert_eq!(Command::from_name("menu_edit_cut"), None);
}

fn item(id: &str, label: &str) -> MenuEntry {
    MenuEntry::Item(MenuItem { id: id.to_string(), label: label.to_string() })
}

#[test]
fn menu_tree_has_three_submenus_with_fixed_labels() {
    let menu = main_menu();
    assert_eq!(menu.len(), 3);
    assert_eq!(menu[0].label, "ファイル");
    assert_eq!(
        menu[0].entries,
        vec![
            item("menu_file_new", "新規"),
            item("menu_file_open", "開く"),
            item("menu_file_save", "上書き保存"),
            item("menu_file_save_as", "名前を付けて保存"),
            MenuEntry::Separator,
            item("menu_file_exit", "終了"),
        ]
    );
    assert_eq!(menu[1].label, "編集");
    assert_eq!(
        menu[1].entries,
        vec![
            item("menu_edit_cut", "切り取り"),
            item("menu_edit_copy", "コピー"),
            item("menu_edit_paste", "貼り付け"),
            item("menu_edit_delete", "削除"),
            MenuEntry::Separator,
            item("menu_edit_select_all", "すべて選択"),
        ]
    );
    assert_eq!(menu[2].label, "ヘルプ");
    assert_eq!(menu[2].entries, vec![item("menu_help_about", "バージョン情報")]);
}

#[test]
fn menu_ids_are_unique() {
    let mut ids: Vec<String> = Vec::new();
    for submenu in main_menu() {
        for entry in submenu.entries {
            if let MenuEntry::Item(item) = entry {
                assert!(!ids.contains(&item.id));
                ids.push(item.id);
            }
        }
    }
    assert_eq!(ids.len(), 11);
}
