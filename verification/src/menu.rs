//! The menu tree: what it is made of and when it is well formed.

use crate::error::MenuConstructionError;
use crate::error::MenuConstructionErrorView;
use crate::text::occurs_before;
use crate::text::owned_text;
use crate::text::str_view;
use crate::text::text_view;
use crate::text::texts;
use vstd::prelude::*;
use vstd::string::StringExecFns;

verus! {

/// Items whose behaviour the host supplies. Selecting one never reaches the
/// dispatch table.
#[derive(Debug, Clone, Copy, PartialEq, Eq, Structural)]
pub enum NativeRole {
    About,
    Services,
    Hide,
    HideOthers,
    ShowAll,
    Quit,
    Undo,
    Redo,
    Cut,
    Copy,
    Paste,
    SelectAll,
    Minimize,
    CloseWindow,
}

/// What a node of the menu tree is.
#[derive(Debug, PartialEq, Eq)]
pub enum MenuKind {
    /// An item of the application: selecting it is dispatched by its id.
    LeafItem,
    /// An item that the host acts on by itself.
    Native(NativeRole),
    /// A dividing line.
    Separator,
    /// A nested menu with its entries in display order.
    Submenu(Vec<MenuAction>),
}

/// One node of the menu tree.
#[derive(Debug, PartialEq, Eq)]
pub struct MenuAction {
    /// Stable identifier; only a leaf item's id is ever dispatched.
    pub id: Option<String>,
    /// Display text, in the one locale the shell ships with.
    pub label: String,
    /// Keyboard shortcut such as `CmdOrCtrl+Shift+S`.
    pub accelerator: Option<String>,
    pub kind: MenuKind,
}

/// Mathematical model of a [`MenuKind`].
pub enum MenuKindView {
    LeafItem,
    Native(NativeRole),
    Separator,
    Submenu(Seq<MenuActionView>),
}

/// Mathematical model of a [`MenuAction`].
pub struct MenuActionView {
    pub id: Option<Seq<char>>,
    pub label: Seq<char>,
    pub accelerator: Option<Seq<char>>,
    pub kind: MenuKindView,
}

/// The model of one node, children included.
pub open spec fn action_view(action: MenuAction) -> MenuActionView
    decreases action,
{
    MenuActionView {
        id: text_view(action.id),
        label: action.label@,
        accelerator: text_view(action.accelerator),
        kind: match action.kind {
            MenuKind::LeafItem => MenuKindView::LeafItem,
            MenuKind::Native(role) => MenuKindView::Native(role),
            MenuKind::Separator => MenuKindView::Separator,
            MenuKind::Submenu(children) => MenuKindView::Submenu(
                Seq::new(
                    children.len() as nat,
                    |i: int|
                        if 0 <= i < children.len() {
                            action_view(children[i])
                        } else {
                            arbitrary()
                        },
                ),
            ),
        },
    }
}

impl View for MenuAction {
    type V = MenuActionView;

    open spec fn view(&self) -> MenuActionView {
        action_view(*self)
    }
}

/// The models of a run of nodes, in order.
pub open spec fn views(items: Seq<MenuAction>) -> Seq<MenuActionView> {
    Seq::new(items.len(), |i: int| items[i]@)
}

/// The ids that selecting an entry of `items` can hand to the dispatcher: the
/// defined ids of the leaf items, at any depth, in display order.
pub open spec fn leaf_ids(items: Seq<MenuActionView>) -> Seq<Seq<char>>
    decreases items,
{
    if items.len() == 0 {
        Seq::empty()
    } else {
        leaf_ids(items.drop_last()) + item_leaf_ids(items.last())
    }
}

/// The part of [`leaf_ids`] that one node contributes.
pub open spec fn item_leaf_ids(item: MenuActionView) -> Seq<Seq<char>>
    decreases item,
{
    match item.kind {
        MenuKindView::LeafItem => match item.id {
            Some(id) => seq![id],
            None => Seq::empty(),
        },
        MenuKindView::Submenu(children) => leaf_ids(children),
        _ => Seq::empty(),
    }
}

/// The first id, in display order, that repeats an earlier one.
pub open spec fn first_duplicate(ids: Seq<Seq<char>>) -> Option<Seq<char>>
    decreases ids.len(),
{
    if ids.len() == 0 {
        None
    } else {
        match first_duplicate(ids.drop_last()) {
            Some(id) => Some(id),
            None => if ids.drop_last().contains(ids.last()) {
                Some(ids.last())
            } else {
                None
            },
        }
    }
}

/// The model of an application item.
pub open spec fn leaf_view(
    id: Seq<char>,
    label: Seq<char>,
    accelerator: Option<Seq<char>>,
) -> MenuActionView {
    MenuActionView { id: Some(id), label, accelerator, kind: MenuKindView::LeafItem }
}

/// The model of a host-provided item.
pub open spec fn native_view(role: NativeRole, label: Seq<char>) -> MenuActionView {
    MenuActionView { id: None, label, accelerator: None, kind: MenuKindView::Native(role) }
}

/// The model of a dividing line.
pub open spec fn separator_view() -> MenuActionView {
    MenuActionView {
        id: None,
        label: Seq::empty(),
        accelerator: None,
        kind: MenuKindView::Separator,
    }
}

/// The model of a nested menu.
pub open spec fn submenu_view(label: Seq<char>, children: Seq<MenuActionView>) -> MenuActionView {
    MenuActionView { id: None, label, accelerator: None, kind: MenuKindView::Submenu(children) }
}

impl MenuAction {
    /// An application item with the given id, display text and shortcut.
    pub fn leaf(id: &str, label: &str, accelerator: Option<&str>) -> (item: MenuAction)
        ensures
            item@ == leaf_view(id@, label@, str_view(accelerator)),
    {
        MenuAction {
            id: Some(String::from_str(id)),
            label: String::from_str(label),
            accelerator: owned_text(accelerator),
            kind: MenuKind::LeafItem,
        }
    }

    /// A host-provided item shown under the given text.
    pub fn native(role: NativeRole, label: &str) -> (item: MenuAction)
        ensures
            item@ == native_view(role, label@),
    {
        MenuAction {
            id: None,
            label: String::from_str(label),
            accelerator: None,
            kind: MenuKind::Native(role),
        }
    }

    /// A dividing line.
    pub fn separator() -> (item: MenuAction)
        ensures
            item@ == separator_view(),
    {
        MenuAction { id: None, label: String::new(), accelerator: None, kind: MenuKind::Separator }
    }

    /// A nested menu holding `children` in display order.
    pub fn submenu(label: &str, children: Vec<MenuAction>) -> (item: MenuAction)
        ensures
            item@ == submenu_view(label@, views(children@)),
    {
        let ghost shown = views(children@);
        let item = MenuAction {
            id: None,
            label: String::from_str(label),
            accelerator: None,
            kind: MenuKind::Submenu(children),
        };
        assert(item@.kind == MenuKindView::Submenu(shown)) by {
            assert(item@.kind->Submenu_0 =~= shown);
        }
        item
    }
}

/// A menu whose leaf ids are all different: the tree that is handed to the
/// host. It is built once and never changed.
#[derive(Debug)]
pub struct MenuTree {
    items: Vec<MenuAction>,
}

impl View for MenuTree {
    type V = Seq<MenuActionView>;

    closed spec fn view(&self) -> Seq<MenuActionView> {
        views(self.items@)
    }
}

impl MenuTree {
    #[verifier::type_invariant]
    spec fn ids_are_unique(self) -> bool {
        leaf_ids(views(self.items@)).no_duplicates()
    }

    /// Builds the tree from its top-level entries. Fails when a leaf id occurs
    /// twice anywhere in the tree, and names the first id that repeats.
    pub fn new(items: Vec<MenuAction>) -> (built: Result<MenuTree, MenuConstructionError>)
        ensures
            built is Err <==> !leaf_ids(views(items@)).no_duplicates(),
            match first_duplicate(leaf_ids(views(items@))) {
                None => built is Ok && built->Ok_0@ == views(items@),
                Some(id) => built is Err && built->Err_0@ == MenuConstructionErrorView::DuplicateId(
                    id,
                ),
            },
    {
        let mut ids: Vec<String> = Vec::new();
        collect_leaf_ids(&items, &mut ids);
        assert(texts(ids@) =~= leaf_ids(views(items@)));
        proof {
            lemma_first_duplicate_none(texts(ids@));
        }
        match find_first_duplicate(&ids) {
            Some(at) => Err(MenuConstructionError::DuplicateId(ids[at].clone())),
            None => Ok(MenuTree { items }),
        }
    }

    /// The top-level entries, in display order.
    pub fn items(&self) -> (items: &Vec<MenuAction>)
        ensures
            views(items@) == self@,
            leaf_ids(self@).no_duplicates(),
    {
        proof {
            use_type_invariant(self);
        }
        &self.items
    }

    /// The ids that a selection in this menu can hand to the dispatcher, in
    /// display order.
    pub fn leaf_ids(&self) -> (ids: Vec<String>)
        ensures
            texts(ids@) == leaf_ids(self@),
            texts(ids@).no_duplicates(),
    {
        proof {
            use_type_invariant(self);
        }
        let mut ids: Vec<String> = Vec::new();
        collect_leaf_ids(&self.items, &mut ids);
        assert(texts(ids@) =~= leaf_ids(views(self.items@)));
        ids
    }
}

/// Appends to `out` the ids that `items` can hand to the dispatcher.
fn collect_leaf_ids(items: &Vec<MenuAction>, out: &mut Vec<String>)
    ensures
        texts(final(out)@) == texts(old(out)@) + leaf_ids(views(items@)),
    decreases items,
{
    let ghost shown = views(items@);
    let mut i: usize = 0;
    assert(shown.take(0) =~= Seq::<MenuActionView>::empty());
    assert(texts(out@) =~= texts(old(out)@) + leaf_ids(shown.take(0)));
    while i < items.len()
        invariant
            i <= items.len(),
            shown == views(items@),
            texts(out@) == texts(old(out)@) + leaf_ids(shown.take(i as int)),
        decreases items.len() - i,
    {
        let item = &items[i];
        let ghost before = out@;
        let ghost upto = shown.take(i as int + 1);
        assert(upto.drop_last() =~= shown.take(i as int));
        assert(upto.last() == item@);
        match &item.kind {
            MenuKind::LeafItem => {
                match &item.id {
                    Some(id) => {
                        out.push(id.clone());
                        assert(texts(out@) =~= texts(before) + seq![id@]);
                    },
                    None => {},
                }
            },
            MenuKind::Submenu(children) => {
                proof {
                    lemma_submenu_children(*item);
                }
                collect_leaf_ids(children, out);
            },
            _ => {},
        }
        assert(texts(out@) =~= texts(before) + item_leaf_ids(item@));
        assert(texts(out@) =~= texts(old(out)@) + leaf_ids(upto));
        i += 1;
    }
    assert(shown.take(items.len() as int) =~= shown);
}

/// The position of the first id that repeats an earlier one.
fn find_first_duplicate(ids: &Vec<String>) -> (found: Option<usize>)
    ensures
        match found {
            Some(at) => at < ids.len() && first_duplicate(texts(ids@)) == Some(ids[at as int]@),
            None => first_duplicate(texts(ids@)) is None,
        },
{
    let ghost all = texts(ids@);
    let mut j: usize = 0;
    assert(all.take(0) =~= Seq::<Seq<char>>::empty());
    while j < ids.len()
        invariant
            j <= ids.len(),
            all == texts(ids@),
            first_duplicate(all.take(j as int)) is None,
        decreases ids.len() - j,
    {
        let ghost upto = all.take(j as int + 1);
        assert(upto.drop_last() =~= all.take(j as int));
        assert(upto.last() == ids[j as int]@);
        if occurs_before(ids, j, &ids[j]) {
            proof {
                lemma_first_duplicate_stays(all, j as int + 1);
            }
            return Some(j);
        }
        j += 1;
    }
    assert(all.take(ids.len() as int) =~= all);
    None
}

/// A nested menu's model holds the models of its children.
pub proof fn lemma_submenu_children(action: MenuAction)
    requires
        action.kind is Submenu,
    ensures
        action@.kind == MenuKindView::Submenu(views(action.kind->Submenu_0@)),
{
    assert(action@.kind->Submenu_0 =~= views(action.kind->Submenu_0@));
}

/// Adding an entry at the end adds its ids at the end.
pub proof fn lemma_leaf_ids_push(items: Seq<MenuActionView>, item: MenuActionView)
    ensures
        leaf_ids(items.push(item)) == leaf_ids(items) + item_leaf_ids(item),
{
    assert(items.push(item).drop_last() =~= items);
}

/// Entries that contribute no id leave none behind.
pub proof fn lemma_leaf_ids_none(items: Seq<MenuActionView>)
    requires
        forall|i: int| 0 <= i < items.len() ==> item_leaf_ids(#[trigger] items[i]).len() == 0,
    ensures
        leaf_ids(items) == Seq::<Seq<char>>::empty(),
    decreases items.len(),
{
    if items.len() > 0 {
        let front = items.drop_last();
        assert forall|i: int| 0 <= i < front.len() implies item_leaf_ids(#[trigger] front[i]).len()
            == 0 by {
            assert(front[i] == items[i]);
        }
        lemma_leaf_ids_none(front);
        assert(item_leaf_ids(items.last()).len() == 0);
        assert(leaf_ids(items) =~= Seq::<Seq<char>>::empty());
    }
}

/// A duplicate found among the first `n` ids is the first duplicate of all.
pub proof fn lemma_first_duplicate_stays(ids: Seq<Seq<char>>, n: int)
    requires
        0 <= n <= ids.len(),
        first_duplicate(ids.take(n)) is Some,
    ensures
        first_duplicate(ids) == first_duplicate(ids.take(n)),
    decreases ids.len() - n,
{
    if n < ids.len() {
        let next = ids.take(n + 1);
        assert(next.drop_last() =~= ids.take(n));
        lemma_first_duplicate_stays(ids, n + 1);
    } else {
        assert(ids.take(n) =~= ids);
    }
}

/// No id repeats an earlier one exactly when all ids differ.
pub proof fn lemma_first_duplicate_none(ids: Seq<Seq<char>>)
    ensures
        first_duplicate(ids) is None <==> ids.no_duplicates(),
    decreases ids.len(),
{
    if ids.len() > 0 {
        let front = ids.drop_last();
        lemma_first_duplicate_none(front);
        if first_duplicate(ids) is None {
            assert forall|i: int, j: int|
                0 <= i < ids.len() && 0 <= j < ids.len() && i != j implies ids[i] != ids[j] by {
                if i < ids.len() - 1 && j < ids.len() - 1 {
                    assert(front[i] != front[j]);
                } else if i < ids.len() - 1 {
                    assert(front[i] == ids[i]);
                } else {
                    assert(front[j] == ids[j]);
                }
            }
        }
        if ids.no_duplicates() {
            assert forall|i: int, j: int|
                0 <= i < front.len() && 0 <= j < front.len() && i != j implies front[i] != front[j] by {
                assert(front[i] == ids[i] && front[j] == ids[j]);
            }
            if front.contains(ids.last()) {
                let i = choose|i: int| 0 <= i < front.len() && front[i] == ids.last();
                assert(ids[i] == ids[ids.len() - 1]);
            }
        }
    }
}

} // verus!
