use kakukoto_menu::error::MenuConstructionError;
use kakukoto_menu::menu::MenuAction;
use kakukoto_menu::menu::MenuKind;
use kakukoto_menu::menu::MenuTree;
use kakukoto_menu::menu::NativeRole;
use kakukoto_menu::shell::build_menu;
use kakukoto_menu::shell::dispatch_table;

fn children(item: &MenuAction) -> &Vec<MenuAction> {
    match &item.kind {
        MenuKind::Submenu(children) => children,
        other => panic!("not a submenu: {:?}", other),
    }
}

fn duplicate(id: &str) -> MenuConstructionError {
    MenuConstructionError::DuplicateId(id.to_string())
}

#[test]
fn a_duplicate_leaf_id_fails_construction() {
    let items = vec![
        MenuAction::leaf("save", "Save", Some("CmdOrCtrl+S")),
        MenuAction::leaf("save", "Save again", None),
    ];
    assert_eq!(MenuTree::new(items).unwrap_err(), duplicate("save"));
}

#[test]
fn a_duplicate_across_submenus_fails_construction() {
    let items = vec![
        MenuAction::submenu("File", vec![MenuAction::leaf("new", "New", None)]),
        MenuAction::submenu(
            "Window",
            vec![
                MenuAction::separator(),
                MenuAction::submenu("More", vec![MenuAction::leaf("new", "New window", None)]),
            ],
        ),
    ];
    assert_eq!(MenuTree::new(items).unwrap_err(), duplicate("new"));
}

#[test]
fn the_first_repeated_id_is_reported() {
    let items = vec![
        MenuAction::leaf("a", "A", None),
        MenuAction::leaf("b", "B", None),
        MenuAction::leaf("c", "C", None),
        MenuAction::leaf("b", "B2", None),
        MenuAction::leaf("a", "A2", None),
    ];
    assert_eq!(MenuTree::new(items).unwrap_err(), duplicate("b"));
    let items = vec![
        MenuAction::leaf("a", "A", None),
        MenuAction::leaf("b", "B", None),
        MenuAction::leaf("a", "A2", None),
        MenuAction::leaf("b", "B2", None),
    ];
    assert_eq!(MenuTree::new(items).unwrap_err(), duplicate("a"));
}

#[test]
fn distinct_leaf_ids_are_accepted() {
    let items = vec![
        MenuAction::leaf("a", "A", None),
        MenuAction::submenu("S", vec![MenuAction::leaf("b", "B", None), MenuAction::separator()]),
        MenuAction::native(NativeRole::Quit, "Quit"),
    ];
    let tree = MenuTree::new(items).unwrap();
    assert_eq!(tree.leaf_ids(), vec!["a".to_string(), "b".to_string()]);
    assert_eq!(tree.items().len(), 3);
    assert_eq!(tree.items()[0], MenuAction::leaf("a", "A", None));
}

#[test]
fn an_empty_menu_is_accepted() {
    let tree = MenuTree::new(Vec::new()).unwrap();
    assert!(tree.items().is_empty());
    assert!(tree.leaf_ids().is_empty());
}

#[test]
fn only_leaf_items_count_as_duplicates() {
    let items = vec![
        MenuAction {
            id: Some("x".to_string()),
            label: "group".to_string(),
            accelerator: None,
            kind: MenuKind::Submenu(vec![MenuAction::leaf("x", "X", None)]),
        },
        MenuAction {
            id: Some("x".to_string()),
            label: String::new(),
            accelerator: None,
            kind: MenuKind::Separator,
        },
        MenuAction {
            id: Some("x".to_string()),
            label: "Copy".to_string(),
            accelerator: None,
            kind: MenuKind::Native(NativeRole::Copy),
        },
        MenuAction { id: None, label: "a".to_string(), accelerator: None, kind: MenuKind::LeafItem },
        MenuAction { id: None, label: "b".to_string(), accelerator: None, kind: MenuKind::LeafItem },
    ];
    let tree = MenuTree::new(items).unwrap();
    assert_eq!(tree.leaf_ids(), vec!["x".to_string()]);
}

#[test]
fn ids_are_compared_exactly() {
    let items = vec![
        MenuAction::leaf("save", "a", None),
        MenuAction::leaf("Save", "b", None),
        MenuAction::leaf("save ", "c", None),
        MenuAction::leaf("save_as", "d", None),
        MenuAction::leaf("", "e", None),
    ];
    assert!(MenuTree::new(items).is_ok());
    let items = vec![MenuAction::leaf("", "a", None), MenuAction::leaf("", "b", None)];
    assert_eq!(MenuTree::new(items).unwrap_err(), duplicate(""));
}

#[test]
fn builders_fill_the_fields() {
    let leaf = MenuAction::leaf("new", "New", Some("CmdOrCtrl+N"));
    assert_eq!(leaf.id.as_deref(), Some("new"));
    assert_eq!(leaf.label, "New");
    assert_eq!(leaf.accelerator.as_deref(), Some("CmdOrCtrl+N"));
    assert_eq!(leaf.kind, MenuKind::LeafItem);

    let native = MenuAction::native(NativeRole::Undo, "Undo");
    assert_eq!(native.id, None);
    assert_eq!(native.label, "Undo");
    assert_eq!(native.accelerator, None);
    assert_eq!(native.kind, MenuKind::Native(NativeRole::Undo));

    let line = MenuAction::separator();
    assert_eq!(line.id, None);
    assert_eq!(line.label, "");
    assert_eq!(line.accelerator, None);
    assert_eq!(line.kind, MenuKind::Separator);

    let group = MenuAction::submenu("Edit", vec![MenuAction::separator()]);
    assert_eq!(group.id, None);
    assert_eq!(group.label, "Edit");
    assert_eq!(group.accelerator, None);
    assert_eq!(children(&group).len(), 1);
}

#[test]
fn the_shell_menu_has_five_menus() {
    let tree = build_menu().unwrap();
    let labels: Vec<&str> = tree.items().iter().map(|m| m.label.as_str()).collect();
    assert_eq!(labels, vec!["kakukoto.", "ファイル", "編集", "モード", "ウィンドウ"]);
    let sizes: Vec<usize> = tree.items().iter().map(|m| children(m).len()).collect();
    assert_eq!(sizes, vec![8, 4, 7, 5, 4]);
}

#[test]
fn the_shell_menu_hands_out_nine_ids() {
    let tree = build_menu().unwrap();
    let ids = tree.leaf_ids();
    let ids: Vec<&str> = ids.iter().map(|id| id.as_str()).collect();
    assert_eq!(
        ids,
        vec![
            "new",
            "open",
            "save",
            "save_as",
            "mode_kakukoto",
            "mode_kakuyomu",
            "mode_yomukoto",
            "mode_focus",
            "maximize",
        ]
    );
}

#[test]
fn the_file_menu_carries_its_accelerators() {
    let tree = build_menu().unwrap();
    let file = children(&tree.items()[1]);
    assert_eq!(file[0], MenuAction::leaf("new", "新規作成", Some("CmdOrCtrl+N")));
    assert_eq!(file[1], MenuAction::leaf("open", "開く", Some("CmdOrCtrl+O")));
    assert_eq!(file[2], MenuAction::leaf("save", "保存", Some("CmdOrCtrl+S")));
    assert_eq!(file[3], MenuAction::leaf("save_as", "名前を付けて保存", Some("CmdOrCtrl+Shift+S")));
}

#[test]
fn the_mode_menu_carries_its_accelerators() {
    let tree = build_menu().unwrap();
    let mode = children(&tree.items()[3]);
    assert_eq!(mode[0], MenuAction::leaf("mode_kakukoto", "kakukoto", Some("CmdOrCtrl+Shift+E")));
    assert_eq!(mode[1], MenuAction::leaf("mode_kakuyomu", "kakuyomu", Some("CmdOrCtrl+Shift+B")));
    assert_eq!(mode[2], MenuAction::leaf("mode_yomukoto", "yomukoto", Some("CmdOrCtrl+Shift+P")));
    assert_eq!(mode[3], MenuAction::separator());
    assert_eq!(mode[4], MenuAction::leaf("mode_focus", ".zone", Some("CmdOrCtrl+Shift+L")));
}

#[test]
fn the_application_edit_and_window_menus_are_as_shipped() {
    let tree = build_menu().unwrap();
    let app = children(&tree.items()[0]);
    assert_eq!(app[0], MenuAction::native(NativeRole::About, "kakukoto.について"));
    assert_eq!(app[1], MenuAction::separator());
    assert_eq!(app[2], MenuAction::native(NativeRole::Services, "サービス設定"));
    assert_eq!(app[3], MenuAction::native(NativeRole::Hide, "kakukoto.を隠す"));
    assert_eq!(app[4], MenuAction::native(NativeRole::HideOthers, "ほかを隠す"));
    assert_eq!(app[5], MenuAction::native(NativeRole::ShowAll, "すべて表示"));
    assert_eq!(app[6], MenuAction::separator());
    assert_eq!(app[7], MenuAction::native(NativeRole::Quit, "kakukoto.を終了"));

    let edit = children(&tree.items()[2]);
    assert_eq!(edit[0], MenuAction::native(NativeRole::Undo, "元に戻す"));
    assert_eq!(edit[1], MenuAction::native(NativeRole::Redo, "やり直し"));
    assert_eq!(edit[2], MenuAction::separator());
    assert_eq!(edit[3], MenuAction::native(NativeRole::Cut, "切り取り"));
    assert_eq!(edit[4], MenuAction::native(NativeRole::Copy, "コピー"));
    assert_eq!(edit[5], MenuAction::native(NativeRole::Paste, "貼り付け"));
    assert_eq!(edit[6], MenuAction::native(NativeRole::SelectAll, "すべて選択"));

    let window = children(&tree.items()[4]);
    assert_eq!(window[0], MenuAction::native(NativeRole::Minimize, "最小化"));
    assert_eq!(window[1], MenuAction::leaf("maximize", "最大化", None));
    assert_eq!(window[2], MenuAction::separator());
    assert_eq!(window[3], MenuAction::native(NativeRole::CloseWindow, "ウィンドウを閉じる"));
}

#[test]
fn every_shell_leaf_has_exactly_one_dispatch_entry() {
    let tree = build_menu().unwrap();
    let table = dispatch_table();
    let ids = tree.leaf_ids();
    assert_eq!(ids.len(), 9);
    for id in &ids {
        let matching = table.entries().iter().filter(|e| &e.match_id == id).count();
        assert_eq!(matching, 1, "entries for {}", id);
        assert!(table.lookup(id).is_some());
    }
}

#[test]
fn building_the_shell_menu_twice_gives_the_same_menu() {
    let first = build_menu().unwrap();
    let second = build_menu().unwrap();
    assert_eq!(first.items(), second.items());
}
