//! The menu bar and the dispatch table that the shell ships with.

use crate::dispatch::dispatches_every_leaf;
use crate::dispatch::effect_for;
use crate::dispatch::emits;
use crate::dispatch::is_only_entry;
use crate::dispatch::lemma_first_entry_is_found;
use crate::dispatch::operates;
use crate::dispatch::DispatchEntry;
use crate::dispatch::DispatchEntryView;
use crate::dispatch::DispatchTable;
use crate::dispatch::WindowOperation;
use crate::error::MenuConstructionError;
use crate::menu::item_leaf_ids;
use crate::menu::leaf_ids;
use crate::menu::lemma_first_duplicate_none;
use crate::menu::lemma_leaf_ids_none;
use crate::menu::lemma_leaf_ids_push;
use crate::menu::leaf_view;
use crate::menu::native_view;
use crate::menu::separator_view;
use crate::menu::submenu_view;
use crate::menu::views;
use crate::menu::MenuAction;
use crate::menu::MenuActionView;
use crate::menu::MenuTree;
use crate::menu::NativeRole;
use vstd::prelude::*;

verus! {

/// The application menu.
pub open spec fn app_menu_view() -> MenuActionView {
    submenu_view(
        "kakukoto."@,
        seq![
            native_view(NativeRole::About, "kakukoto.について"@),
            separator_view(),
            native_view(NativeRole::Services, "サービス設定"@),
            native_view(NativeRole::Hide, "kakukoto.を隠す"@),
            native_view(NativeRole::HideOthers, "ほかを隠す"@),
            native_view(NativeRole::ShowAll, "すべて表示"@),
            separator_view(),
            native_view(NativeRole::Quit, "kakukoto.を終了"@),
        ],
    )
}

/// The file menu.
pub open spec fn file_menu_view() -> MenuActionView {
    submenu_view(
        "ファイル"@,
        seq![
            leaf_view("new"@, "新規作成"@, Some("CmdOrCtrl+N"@)),
            leaf_view("open"@, "開く"@, Some("CmdOrCtrl+O"@)),
            leaf_view("save"@, "保存"@, Some("CmdOrCtrl+S"@)),
            leaf_view("save_as"@, "名前を付けて保存"@, Some("CmdOrCtrl+Shift+S"@)),
        ],
    )
}

/// The edit menu.
pub open spec fn edit_menu_view() -> MenuActionView {
    submenu_view(
        "編集"@,
        seq![
            native_view(NativeRole::Undo, "元に戻す"@),
            native_view(NativeRole::Redo, "やり直し"@),
            separator_view(),
            native_view(NativeRole::Cut, "切り取り"@),
            native_view(NativeRole::Copy, "コピー"@),
            native_view(NativeRole::Paste, "貼り付け"@),
            native_view(NativeRole::SelectAll, "すべて選択"@),
        ],
    )
}

/// The mode menu.
pub open spec fn mode_menu_view() -> MenuActionView {
    submenu_view(
        "モード"@,
        seq![
            leaf_view("mode_kakukoto"@, "kakukoto"@, Some("CmdOrCtrl+Shift+E"@)),
            leaf_view("mode_kakuyomu"@, "kakuyomu"@, Some("CmdOrCtrl+Shift+B"@)),
            leaf_view("mode_yomukoto"@, "yomukoto"@, Some("CmdOrCtrl+Shift+P"@)),
            separator_view(),
            leaf_view("mode_focus"@, ".zone"@, Some("CmdOrCtrl+Shift+L"@)),
        ],
    )
}

/// The window menu.
pub open spec fn window_menu_view() -> MenuActionView {
    submenu_view(
        "ウィンドウ"@,
        seq![
            native_view(NativeRole::Minimize, "最小化"@),
            leaf_view("maximize"@, "最大化"@, None),
            separator_view(),
            native_view(NativeRole::CloseWindow, "ウィンドウを閉じる"@),
        ],
    )
}

/// The menu bar of the shell: its five menus, left to right.
pub open spec fn shell_menu() -> Seq<MenuActionView> {
    seq![
        app_menu_view(),
        file_menu_view(),
        edit_menu_view(),
        mode_menu_view(),
        window_menu_view(),
    ]
}

/// The dispatch table of the shell.
pub open spec fn shell_dispatch() -> Seq<DispatchEntryView> {
    seq![
        emits("new"@, "menu-new"@, None),
        emits("open"@, "menu-open"@, None),
        emits("save"@, "menu-save"@, None),
        emits("save_as"@, "menu-save-as"@, None),
        emits("mode_kakukoto"@, "menu-mode-change"@, Some("kakukoto"@)),
        emits("mode_kakuyomu"@, "menu-mode-change"@, Some("kakuyomu"@)),
        emits("mode_yomukoto"@, "menu-mode-change"@, Some("yomukoto"@)),
        emits("mode_focus"@, "menu-mode-focus"@, None),
        operates("maximize"@, WindowOperation::Maximize),
    ]
}

/// The ids that the shell's menu bar can hand to the dispatcher, in display
/// order.
pub open spec fn shell_ids() -> Seq<Seq<char>> {
    seq![
        "new"@,
        "open"@,
        "save"@,
        "save_as"@,
        "mode_kakukoto"@,
        "mode_kakuyomu"@,
        "mode_yomukoto"@,
        "mode_focus"@,
        "maximize"@,
    ]
}

fn app_menu() -> (menu: MenuAction)
    ensures
        menu@ == app_menu_view(),
{
    let mut items: Vec<MenuAction> = Vec::new();
    items.push(MenuAction::native(NativeRole::About, "kakukoto.について"));
    items.push(MenuAction::separator());
    items.push(MenuAction::native(NativeRole::Services, "サービス設定"));
    items.push(MenuAction::native(NativeRole::Hide, "kakukoto.を隠す"));
    items.push(MenuAction::native(NativeRole::HideOthers, "ほかを隠す"));
    items.push(MenuAction::native(NativeRole::ShowAll, "すべて表示"));
    items.push(MenuAction::separator());
    items.push(MenuAction::native(NativeRole::Quit, "kakukoto.を終了"));
    assert(views(items@) =~= app_menu_view().kind->Submenu_0);
    MenuAction::submenu("kakukoto.", items)
}

fn file_menu() -> (menu: MenuAction)
    ensures
        menu@ == file_menu_view(),
{
    let mut items: Vec<MenuAction> = Vec::new();
    items.push(MenuAction::leaf("new", "新規作成", Some("CmdOrCtrl+N")));
    items.push(MenuAction::leaf("open", "開く", Some("CmdOrCtrl+O")));
    items.push(MenuAction::leaf("save", "保存", Some("CmdOrCtrl+S")));
    items.push(MenuAction::leaf("save_as", "名前を付けて保存", Some("CmdOrCtrl+Shift+S")));
    assert(views(items@) =~= file_menu_view().kind->Submenu_0);
    MenuAction::submenu("ファイル", items)
}

fn edit_menu() -> (menu: MenuAction)
    ensures
        menu@ == edit_menu_view(),
{
    let mut items: Vec<MenuAction> = Vec::new();
    items.push(MenuAction::native(NativeRole::Undo, "元に戻す"));
    items.push(MenuAction::native(NativeRole::Redo, "やり直し"));
    items.push(MenuAction::separator());
    items.push(MenuAction::native(NativeRole::Cut, "切り取り"));
    items.push(MenuAction::native(NativeRole::Copy, "コピー"));
    items.push(MenuAction::native(NativeRole::Paste, "貼り付け"));
    items.push(MenuAction::native(NativeRole::SelectAll, "すべて選択"));
    assert(views(items@) =~= edit_menu_view().kind->Submenu_0);
    MenuAction::submenu("編集", items)
}

fn mode_menu() -> (menu: MenuAction)
    ensures
        menu@ == mode_menu_view(),
{
    let mut items: Vec<MenuAction> = Vec::new();
    items.push(MenuAction::leaf("mode_kakukoto", "kakukoto", Some("CmdOrCtrl+Shift+E")));
    items.push(MenuAction::leaf("mode_kakuyomu", "kakuyomu", Some("CmdOrCtrl+Shift+B")));
    items.push(MenuAction::leaf("mode_yomukoto", "yomukoto", Some("CmdOrCtrl+Shift+P")));
    items.push(MenuAction::separator());
    items.push(MenuAction::leaf("mode_focus", ".zone", Some("CmdOrCtrl+Shift+L")));
    assert(views(items@) =~= mode_menu_view().kind->Submenu_0);
    MenuAction::submenu("モード", items)
}

fn window_menu() -> (menu: MenuAction)
    ensures
        menu@ == window_menu_view(),
{
    let mut items: Vec<MenuAction> = Vec::new();
    items.push(MenuAction::native(NativeRole::Minimize, "最小化"));
    items.push(MenuAction::leaf("maximize", "最大化", None));
    items.push(MenuAction::separator());
    items.push(MenuAction::native(NativeRole::CloseWindow, "ウィンドウを閉じる"));
    assert(views(items@) =~= window_menu_view().kind->Submenu_0);
    MenuAction::submenu("ウィンドウ", items)
}

/// The dispatch table of the shell.
pub fn dispatch_table() -> (table: DispatchTable)
    ensures
        table@ == shell_dispatch(),
{
    let mut entries: Vec<DispatchEntry> = Vec::new();
    entries.push(DispatchEntry::emit("new", "menu-new", None));
    entries.push(DispatchEntry::emit("open", "menu-open", None));
    entries.push(DispatchEntry::emit("save", "menu-save", None));
    entries.push(DispatchEntry::emit("save_as", "menu-save-as", None));
    entries.push(DispatchEntry::emit("mode_kakukoto", "menu-mode-change", Some("kakukoto")));
    entries.push(DispatchEntry::emit("mode_kakuyomu", "menu-mode-change", Some("kakuyomu")));
    entries.push(DispatchEntry::emit("mode_yomukoto", "menu-mode-change", Some("yomukoto")));
    entries.push(DispatchEntry::emit("mode_focus", "menu-mode-focus", None));
    entries.push(DispatchEntry::window("maximize", WindowOperation::Maximize));
    let table = DispatchTable::new(entries);
    assert(table@ =~= shell_dispatch());
    table
}

/// The ids that the shell's menu bar hands out are those of [`shell_ids`].
pub proof fn lemma_shell_menu_ids()
    ensures
        leaf_ids(shell_menu()) == shell_ids(),
{
    let app = app_menu_view();
    let file = file_menu_view();
    let edit = edit_menu_view();
    let mode = mode_menu_view();
    let window = window_menu_view();
    let none = Seq::<Seq<char>>::empty();

    assert(item_leaf_ids(app) == none) by {
        lemma_leaf_ids_none(app.kind->Submenu_0);
    }
    assert(item_leaf_ids(edit) == none) by {
        lemma_leaf_ids_none(edit.kind->Submenu_0);
    }
    assert(item_leaf_ids(file) =~= seq!["new"@, "open"@, "save"@, "save_as"@]) by {
        let a = leaf_view("new"@, "新規作成"@, Some("CmdOrCtrl+N"@));
        let b = leaf_view("open"@, "開く"@, Some("CmdOrCtrl+O"@));
        let c = leaf_view("save"@, "保存"@, Some("CmdOrCtrl+S"@));
        let d = leaf_view("save_as"@, "名前を付けて保存"@, Some("CmdOrCtrl+Shift+S"@));
        let start = Seq::<MenuActionView>::empty();
        assert(file.kind->Submenu_0 =~= start.push(a).push(b).push(c).push(d));
        lemma_leaf_ids_push(start, a);
        lemma_leaf_ids_push(start.push(a), b);
        lemma_leaf_ids_push(start.push(a).push(b), c);
        lemma_leaf_ids_push(start.push(a).push(b).push(c), d);
    }
    assert(item_leaf_ids(mode) =~= seq![
        "mode_kakukoto"@,
        "mode_kakuyomu"@,
        "mode_yomukoto"@,
        "mode_focus"@,
    ]) by {
        let a = leaf_view("mode_kakukoto"@, "kakukoto"@, Some("CmdOrCtrl+Shift+E"@));
        let b = leaf_view("mode_kakuyomu"@, "kakuyomu"@, Some("CmdOrCtrl+Shift+B"@));
        let c = leaf_view("mode_yomukoto"@, "yomukoto"@, Some("CmdOrCtrl+Shift+P"@));
        let d = separator_view();
        let e = leaf_view("mode_focus"@, ".zone"@, Some("CmdOrCtrl+Shift+L"@));
        let start = Seq::<MenuActionView>::empty();
        assert(mode.kind->Submenu_0 =~= start.push(a).push(b).push(c).push(d).push(e));
        lemma_leaf_ids_push(start, a);
        lemma_leaf_ids_push(start.push(a), b);
        lemma_leaf_ids_push(start.push(a).push(b), c);
        lemma_leaf_ids_push(start.push(a).push(b).push(c), d);
        lemma_leaf_ids_push(start.push(a).push(b).push(c).push(d), e);
    }
    assert(item_leaf_ids(window) =~= seq!["maximize"@]) by {
        let a = native_view(NativeRole::Minimize, "最小化"@);
        let b = leaf_view("maximize"@, "最大化"@, None);
        let c = separator_view();
        let d = native_view(NativeRole::CloseWindow, "ウィンドウを閉じる"@);
        let start = Seq::<MenuActionView>::empty();
        assert(window.kind->Submenu_0 =~= start.push(a).push(b).push(c).push(d));
        lemma_leaf_ids_push(start, a);
        lemma_leaf_ids_push(start.push(a), b);
        lemma_leaf_ids_push(start.push(a).push(b), c);
        lemma_leaf_ids_push(start.push(a).push(b).push(c), d);
    }
    let start = Seq::<MenuActionView>::empty();
    assert(shell_menu() =~= start.push(app).push(file).push(edit).push(mode).push(window));
    lemma_leaf_ids_push(start, app);
    lemma_leaf_ids_push(start.push(app), file);
    lemma_leaf_ids_push(start.push(app).push(file), edit);
    lemma_leaf_ids_push(start.push(app).push(file).push(edit), mode);
    lemma_leaf_ids_push(start.push(app).push(file).push(edit).push(mode), window);
    assert(leaf_ids(shell_menu()) =~= shell_ids());
}

/// No two ids of the shell's menu bar are the same.
pub proof fn lemma_shell_ids_differ()
    ensures
        shell_ids().no_duplicates(),
{
    reveal_strlit("new");
    reveal_strlit("open");
    reveal_strlit("save");
    reveal_strlit("save_as");
    reveal_strlit("mode_kakukoto");
    reveal_strlit("mode_kakuyomu");
    reveal_strlit("mode_yomukoto");
    reveal_strlit("mode_focus");
    reveal_strlit("maximize");
    let ids = shell_ids();
    assert(ids[1][0] != ids[2][0]);
    assert(ids[4][9] != ids[5][9]);
    assert(ids[4][5] != ids[6][5]);
    assert(ids[5][5] != ids[6][5]);
    assert forall|i: int, j: int| 0 <= i < ids.len() && 0 <= j < ids.len() && i != j implies ids[i]
        != ids[j] by {
        if ids[i].len() == ids[j].len() {
            assert(i == 1 || i == 2 || i == 4 || i == 5 || i == 6);
            assert(j == 1 || j == 2 || j == 4 || j == 5 || j == 6);
        }
    }
}

/// Builds the menu bar of the shell. With the entries that ship, no leaf id
/// occurs twice, so the construction succeeds.
pub fn build_menu() -> (built: Result<MenuTree, MenuConstructionError>)
    ensures
        built is Ok,
        built->Ok_0@ == shell_menu(),
{
    let mut items: Vec<MenuAction> = Vec::new();
    items.push(app_menu());
    items.push(file_menu());
    items.push(edit_menu());
    items.push(mode_menu());
    items.push(window_menu());
    assert(views(items@) =~= shell_menu());
    proof {
        lemma_shell_menu_ids();
        lemma_shell_ids_differ();
        lemma_first_duplicate_none(shell_ids());
    }
    MenuTree::new(items)
}

/// Every leaf item of the shell's menu bar that has an id has exactly one line
/// in the shell's dispatch table, and selecting the item brings about the
/// effect of that line.
pub proof fn shell_tables_agree()
    ensures
        dispatches_every_leaf(shell_menu(), shell_dispatch()),
        leaf_ids(shell_menu()).len() == shell_dispatch().len(),
        forall|k: int|
            0 <= k < shell_dispatch().len() ==> effect_for(
                shell_dispatch(),
                #[trigger] leaf_ids(shell_menu())[k],
            ) == Some(shell_dispatch()[k].effect),
{
    lemma_shell_menu_ids();
    lemma_shell_ids_differ();
    let ids = shell_ids();
    let table = shell_dispatch();
    assert forall|k: int| 0 <= k < ids.len() implies table[k].match_id == ids[k] by {}
    assert forall|k: int| 0 <= k < ids.len() implies is_only_entry(table, #[trigger] ids[k], k) by {
        assert forall|j: int| 0 <= j < table.len() && (#[trigger] table[j]).match_id
            == ids[k] implies j == k by {
            assert(table[j].match_id == ids[j]);
        }
    }
    assert forall|k: int| 0 <= k < table.len() implies effect_for(table, #[trigger] ids[k]) == Some(
        table[k].effect,
    ) by {
        assert(is_only_entry(table, ids[k], k));
        lemma_first_entry_is_found(table, ids[k], k);
    }
}

} // verus!
