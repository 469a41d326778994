//! The menu tree of the main window: three submenus of items, each item with
//! a stable identifier and a label shown to the user.
use vstd::prelude::*;

verus! {

/// One item that the user can activate.
#[derive(Debug, Clone, PartialEq, Eq)]
pub struct MenuItem {
    pub id: String,
    pub label: String,
}

/// An entry of a submenu: an item, or a separator line.
#[derive(Debug, Clone, PartialEq, Eq)]
pub enum MenuEntry {
    Item(MenuItem),
    Separator,
}

/// A submenu of the menu bar.
#[derive(Debug, Clone, PartialEq, Eq)]
pub struct Submenu {
    pub label: String,
    pub entries: Vec<MenuEntry>,
}

/// What an entry is, over plain sequences of characters.
pub enum EntryView {
    Item { id: Seq<char>, label: Seq<char> },
    Separator,
}

/// What a submenu is, over plain sequences of characters.
pub struct SubmenuView {
    pub label: Seq<char>,
    pub entries: Seq<EntryView>,
}

impl View for MenuEntry {
    type V = EntryView;

    open spec fn view(&self) -> EntryView {
        match self {
            MenuEntry::Item(i) => EntryView::Item { id: i.id@, label: i.label@ },
            MenuEntry::Separator => EntryView::Separator,
        }
    }
}

impl View for Submenu {
    type V = SubmenuView;

    open spec fn view(&self) -> SubmenuView {
        SubmenuView { label: self.label@, entries: self.entries@.map_values(|e: MenuEntry| e@) }
    }
}

/// The view of a whole menu bar.
pub open spec fn menu_view(m: Seq<Submenu>) -> Seq<SubmenuView> {
    m.map_values(|s: Submenu| s@)
}

pub open spec fn item(id: &str, label: &str) -> EntryView {
    EntryView::Item { id: id@, label: label@ }
}

/// The menu bar of the main window.
pub open spec fn main_menu_tree() -> Seq<SubmenuView> {
    seq![
        SubmenuView {
            label: "ファイル"@,
            entries: seq![
                item("menu_file_new", "新規"),
                item("menu_file_open", "開く"),
                item("menu_file_save", "上書き保存"),
                item("menu_file_save_as", "名前を付けて保存"),
                EntryView::Separator,
                item("menu_file_exit", "終了"),
            ],
        },
        SubmenuView {
            label: "編集"@,
            entries: seq![
                item("menu_edit_cut", "切り取り"),
                item("menu_edit_copy", "コピー"),
                item("menu_edit_paste", "貼り付け"),
                item("menu_edit_delete", "削除"),
                EntryView::Separator,
                item("menu_edit_select_all", "すべて選択"),
            ],
        },
        SubmenuView {
            label: "ヘルプ"@,
            entries: seq![item("menu_help_about", "バージョン情報")],
        },
    ]
}

/// Every menu-item identifier, in menu order.
pub open spec fn menu_item_ids() -> Seq<Seq<char>> {
    seq![
        "menu_file_new"@,
        "menu_file_open"@,
        "menu_file_save"@,
        "menu_file_save_as"@,
        "menu_file_exit"@,
        "menu_edit_cut"@,
        "menu_edit_copy"@,
        "menu_edit_paste"@,
        "menu_edit_delete"@,
        "menu_edit_select_all"@,
        "menu_help_about"@,
    ]
}

/// Whether `s` identifies an item of the menu bar.
pub open spec fn is_menu_item_id(s: Seq<char>) -> bool {
    menu_item_ids().contains(s)
}

/// The identifiers of the items among `es`, in order, separators left out.
pub open spec fn entry_ids(es: Seq<EntryView>) -> Seq<Seq<char>>
    decreases es.len(),
{
    if es.len() == 0 {
        Seq::empty()
    } else {
        let rest = entry_ids(es.drop_last());
        match es.last() {
            EntryView::Item { id, label: _ } => rest.push(id),
            EntryView::Separator => rest,
        }
    }
}

/// The identifiers of all items of a menu bar, submenu after submenu.
pub open spec fn tree_ids(m: Seq<SubmenuView>) -> Seq<Seq<char>>
    decreases m.len(),
{
    if m.len() == 0 {
        Seq::empty()
    } else {
        tree_ids(m.drop_last()) + entry_ids(m.last().entries)
    }
}

/// The items of the menu bar carry exactly the identifiers of
/// `menu_item_ids`, each of them once.
pub proof fn lemma_menu_ids_unique()
    ensures
        tree_ids(main_menu_tree()) == menu_item_ids(),
        menu_item_ids().no_duplicates(),
{
    lemma_menu_ids_distinct();
    let m = main_menu_tree();
    reveal_with_fuel(entry_ids, 7);
    assert(entry_ids(m[0].entries) =~= menu_item_ids().subrange(0, 5));
    assert(entry_ids(m[1].entries) =~= menu_item_ids().subrange(5, 10));
    assert(entry_ids(m[2].entries) =~= menu_item_ids().subrange(10, 11));
    assert(m.drop_last().drop_last().drop_last() =~= Seq::<SubmenuView>::empty());
    assert(m.drop_last().drop_last() =~= seq![m[0]]);
    assert(m.drop_last() =~= seq![m[0], m[1]]);
    reveal_with_fuel(tree_ids, 4);
    assert(tree_ids(main_menu_tree()) =~= menu_item_ids());
}

/// Length, sixth and eleventh character: enough to tell the identifiers apart.
spec fn id_key(s: Seq<char>) -> (int, char, char) {
    (s.len() as int, s[5], s[10])
}

proof fn lemma_menu_ids_distinct()
    ensures
        menu_item_ids().no_duplicates(),
{
    reveal_strlit("menu_file_new");
    reveal_strlit("menu_file_open");
    reveal_strlit("menu_file_save");
    reveal_strlit("menu_file_save_as");
    reveal_strlit("menu_file_exit");
    reveal_strlit("menu_edit_cut");
    reveal_strlit("menu_edit_copy");
    reveal_strlit("menu_edit_paste");
    reveal_strlit("menu_edit_delete");
    reveal_strlit("menu_edit_select_all");
    reveal_strlit("menu_help_about");
    let ids = menu_item_ids();
    let keys = seq![
        (13int, 'f', 'n'),
        (14int, 'f', 'o'),
        (14int, 'f', 's'),
        (17int, 'f', 's'),
        (14int, 'f', 'e'),
        (13int, 'e', 'c'),
        (14int, 'e', 'c'),
        (15int, 'e', 'p'),
        (16int, 'e', 'd'),
        (20int, 'e', 's'),
        (15int, 'h', 'a'),
    ];
    assert forall|i: int| 0 <= i < 11 implies id_key(#[trigger] ids[i]) == keys[i] by {}
    assert forall|i: int, j: int| 0 <= i < 11 && 0 <= j < 11 && i != j implies ids[i] != ids[j] by {
        assert(id_key(ids[i]) == keys[i]);
        assert(id_key(ids[j]) == keys[j]);
    }
}

fn new_item(id: &str, label: &str) -> (r: MenuEntry)
    ensures
        r@ == item(id, label),
{
    MenuEntry::Item(MenuItem { id: id.to_string(), label: label.to_string() })
}

/// Builds the menu bar of the main window.
pub fn main_menu() -> (r: Vec<Submenu>)
    ensures
        menu_view(r@) == main_menu_tree(),
{
    let tree = Ghost(main_menu_tree());
    let mut file: Vec<MenuEntry> = Vec::new();
    file.push(new_item("menu_file_new", "新規"));
    file.push(new_item("menu_file_open", "開く"));
    file.push(new_item("menu_file_save", "上書き保存"));
    file.push(new_item("menu_file_save_as", "名前を付けて保存"));
    file.push(MenuEntry::Separator);
    file.push(new_item("menu_file_exit", "終了"));
    let mut edit: Vec<MenuEntry> = Vec::new();
    edit.push(new_item("menu_edit_cut", "切り取り"));
    edit.push(new_item("menu_edit_copy", "コピー"));
    edit.push(new_item("menu_edit_paste", "貼り付け"));
    edit.push(new_item("menu_edit_delete", "削除"));
    edit.push(MenuEntry::Separator);
    edit.push(new_item("menu_edit_select_all", "すべて選択"));
    let mut help: Vec<MenuEntry> = Vec::new();
    help.push(new_item("menu_help_about", "バージョン情報"));
    let file_menu = Submenu { label: "ファイル".to_string(), entries: file };
    let edit_menu = Submenu { label: "編集".to_string(), entries: edit };
    let help_menu = Submenu { label: "ヘルプ".to_string(), entries: help };
    assert(file_menu@.entries =~= tree@[0].entries);
    assert(edit_menu@.entries =~= tree@[1].entries);
    assert(help_menu@.entries =~= tree@[2].entries);
    let mut menu: Vec<Submenu> = Vec::new();
    menu.push(file_menu);
    menu.push(edit_menu);
    menu.push(help_menu);
    assert(menu_view(menu@) =~= tree@);
    menu
}

} // verus!
