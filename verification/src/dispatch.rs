//! Routing of menu selections: from the id of the selected item to what the
//! host is asked to do.

use crate::menu::leaf_ids;
use crate::menu::MenuActionView;
use crate::text::copied_text;
use crate::text::occurs_in;
use crate::text::str_view;
use crate::text::text_view;
use crate::text::texts;
use crate::text::owned_text;
use vstd::prelude::*;
use vstd::string::StringExecFns;

verus! {

/// What can be asked of a window directly.
#[derive(Debug, Clone, Copy, PartialEq, Eq, Structural)]
pub enum WindowOperation {
    Maximize,
}

/// What selecting a menu item brings about.
#[derive(Debug, PartialEq, Eq)]
pub enum Effect {
    /// A named event is sent to every listener of the front-end.
    EmitEvent { event_name: String, payload: Option<String> },
    /// The main window is operated on, if there is one.
    WindowOp(WindowOperation),
}

/// Mathematical model of an [`Effect`].
pub enum EffectView {
    EmitEvent { event_name: Seq<char>, payload: Option<Seq<char>> },
    WindowOp(WindowOperation),
}

impl View for Effect {
    type V = EffectView;

    open spec fn view(&self) -> EffectView {
        match self {
            Effect::EmitEvent { event_name, payload } => EffectView::EmitEvent {
                event_name: event_name@,
                payload: text_view(*payload),
            },
            Effect::WindowOp(operation) => EffectView::WindowOp(*operation),
        }
    }
}

/// One line of the dispatch table.
#[derive(Debug, PartialEq, Eq)]
pub struct DispatchEntry {
    /// The menu item id that this line answers to.
    pub match_id: String,
    pub effect: Effect,
}

/// Mathematical model of a [`DispatchEntry`].
pub struct DispatchEntryView {
    pub match_id: Seq<char>,
    pub effect: EffectView,
}

impl View for DispatchEntry {
    type V = DispatchEntryView;

    open spec fn view(&self) -> DispatchEntryView {
        DispatchEntryView { match_id: self.match_id@, effect: self.effect@ }
    }
}

/// The model of a line that emits an event.
pub open spec fn emits(
    match_id: Seq<char>,
    event_name: Seq<char>,
    payload: Option<Seq<char>>,
) -> DispatchEntryView {
    DispatchEntryView { match_id, effect: EffectView::EmitEvent { event_name, payload } }
}

/// The model of a line that operates on the main window.
pub open spec fn operates(match_id: Seq<char>, operation: WindowOperation) -> DispatchEntryView {
    DispatchEntryView { match_id, effect: EffectView::WindowOp(operation) }
}

impl DispatchEntry {
    /// A line that answers `match_id` by emitting `event_name` with `payload`.
    pub fn emit(match_id: &str, event_name: &str, payload: Option<&str>) -> (entry: DispatchEntry)
        ensures
            entry@ == emits(match_id@, event_name@, str_view(payload)),
    {
        DispatchEntry {
            match_id: String::from_str(match_id),
            effect: Effect::EmitEvent {
                event_name: String::from_str(event_name),
                payload: owned_text(payload),
            },
        }
    }

    /// A line that answers `match_id` by operating on the main window.
    pub fn window(match_id: &str, operation: WindowOperation) -> (entry: DispatchEntry)
        ensures
            entry@ == operates(match_id@, operation),
    {
        DispatchEntry { match_id: String::from_str(match_id), effect: Effect::WindowOp(operation) }
    }
}

/// The label of the window that window operations act on.
pub open spec fn main_window() -> Seq<char> {
    "main"@
}

/// The label of the window that window operations act on.
pub fn main_window_label() -> (label: String)
    ensures
        label@ == main_window(),
{
    String::from_str("main")
}

/// What the host is asked to do after a selection.
#[derive(Debug, PartialEq, Eq)]
pub enum HostAction {
    /// Send `event_name`, with `payload` if there is one, to all listeners.
    /// Whether the sending succeeds is of no concern to the dispatcher.
    Emit { event_name: String, payload: Option<String> },
    /// Apply `operation` to the open window labelled `label`.
    Window { label: String, operation: WindowOperation },
    /// Do nothing.
    Nothing,
}

/// Mathematical model of a [`HostAction`].
pub enum HostActionView {
    Emit { event_name: Seq<char>, payload: Option<Seq<char>> },
    Window { label: Seq<char>, operation: WindowOperation },
    Nothing,
}

impl View for HostAction {
    type V = HostActionView;

    open spec fn view(&self) -> HostActionView {
        match self {
            HostAction::Emit { event_name, payload } => HostActionView::Emit {
                event_name: event_name@,
                payload: text_view(*payload),
            },
            HostAction::Window { label, operation } => HostActionView::Window {
                label: label@,
                operation: *operation,
            },
            HostAction::Nothing => HostActionView::Nothing,
        }
    }
}

/// The effect that `table` holds for `id`: that of the first line whose
/// `match_id` is `id`, if any line has it.
pub open spec fn effect_for(table: Seq<DispatchEntryView>, id: Seq<char>) -> Option<EffectView>
    decreases table.len(),
{
    if table.len() == 0 {
        None
    } else if table.first().match_id == id {
        Some(table.first().effect)
    } else {
        effect_for(table.drop_first(), id)
    }
}

/// Line `at` of `table` answers to `id`, and no other line does.
pub open spec fn is_only_entry(table: Seq<DispatchEntryView>, id: Seq<char>, at: int) -> bool {
    &&& 0 <= at < table.len()
    &&& table[at].match_id == id
    &&& forall|j: int| 0 <= j < table.len() && (#[trigger] table[j]).match_id == id ==> j == at
}

/// `table` holds exactly one line that answers to `id`.
pub open spec fn has_one_entry(table: Seq<DispatchEntryView>, id: Seq<char>) -> bool {
    exists|at: int| is_only_entry(table, id, at)
}

/// Every id that `menu` can hand to the dispatcher has exactly one line in
/// `table`.
pub open spec fn dispatches_every_leaf(
    menu: Seq<MenuActionView>,
    table: Seq<DispatchEntryView>,
) -> bool {
    forall|k: int| 0 <= k < leaf_ids(menu).len() ==> has_one_entry(table, #[trigger] leaf_ids(menu)[k])
}

/// Where no line before `at` answers to `id` and line `at` does, the table's
/// effect for `id` is that of line `at`.
pub proof fn lemma_first_entry_is_found(table: Seq<DispatchEntryView>, id: Seq<char>, at: int)
    requires
        0 <= at < table.len(),
        table[at].match_id == id,
        forall|j: int| 0 <= j < at ==> (#[trigger] table[j]).match_id != id,
    ensures
        effect_for(table, id) == Some(table[at].effect),
    decreases at,
{
    if at > 0 {
        let rest = table.drop_first();
        assert(table.first() == table[0]);
        assert forall|j: int| 0 <= j < at - 1 implies (#[trigger] rest[j]).match_id != id by {
            assert(rest[j] == table[j + 1]);
        }
        assert(rest[at - 1] == table[at]);
        lemma_first_entry_is_found(rest, id, at - 1);
    }
}

/// The table has a line for `id` exactly when some line answers to it.
pub proof fn lemma_effect_for_some(table: Seq<DispatchEntryView>, id: Seq<char>)
    ensures
        effect_for(table, id) is Some <==> exists|j: int|
            0 <= j < table.len() && (#[trigger] table[j]).match_id == id,
    decreases table.len(),
{
    if table.len() > 0 {
        let rest = table.drop_first();
        lemma_effect_for_some(rest, id);
        if table.first().match_id == id {
            assert(table[0].match_id == id);
        } else {
            if effect_for(rest, id) is Some {
                let j = choose|j: int| 0 <= j < rest.len() && (#[trigger] rest[j]).match_id == id;
                assert(table[j + 1].match_id == id);
            }
            if exists|j: int| 0 <= j < table.len() && (#[trigger] table[j]).match_id == id {
                let j = choose|j: int| 0 <= j < table.len() && (#[trigger] table[j]).match_id == id;
                assert(rest[j - 1].match_id == id);
            }
        }
    }
}

/// What the host is asked to do for `effect` while `windows` are open.
pub open spec fn action_of(effect: Option<EffectView>, windows: Seq<Seq<char>>) -> HostActionView {
    match effect {
        None => HostActionView::Nothing,
        Some(EffectView::EmitEvent { event_name, payload }) => HostActionView::Emit {
            event_name,
            payload,
        },
        Some(EffectView::WindowOp(operation)) => if windows.contains(main_window()) {
            HostActionView::Window { label: main_window(), operation }
        } else {
            HostActionView::Nothing
        },
    }
}

/// What the host is asked to do when the item `id` is selected while
/// `windows` are open.
pub open spec fn action_for(
    table: Seq<DispatchEntryView>,
    id: Seq<char>,
    windows: Seq<Seq<char>>,
) -> HostActionView {
    action_of(effect_for(table, id), windows)
}

/// Selecting an id that no line of the table answers to asks nothing of the
/// host, whatever windows are open.
pub proof fn unknown_id_is_ignored(
    table: Seq<DispatchEntryView>,
    id: Seq<char>,
    windows: Seq<Seq<char>>,
)
    requires
        forall|j: int| 0 <= j < table.len() ==> (#[trigger] table[j]).match_id != id,
    ensures
        action_for(table, id, windows) == HostActionView::Nothing,
{
    lemma_effect_for_some(table, id);
}

/// A selection that stands for a window operation asks nothing of the host
/// while the main window is not open, and asks for the operation on the main
/// window while it is.
pub proof fn window_operation_needs_main_window(
    table: Seq<DispatchEntryView>,
    id: Seq<char>,
    windows: Seq<Seq<char>>,
)
    requires
        effect_for(table, id) matches Some(EffectView::WindowOp(_)),
    ensures
        !windows.contains(main_window()) ==> action_for(table, id, windows)
            == HostActionView::Nothing,
        windows.contains(main_window()) ==> action_for(table, id, windows)
            == (HostActionView::Window {
            label: main_window(),
            operation: effect_for(table, id)->Some_0->WindowOp_0,
        }),
{
}

/// A selection that stands for an event asks for that event, whatever
/// windows are open.
pub proof fn event_is_emitted(table: Seq<DispatchEntryView>, id: Seq<char>, windows: Seq<Seq<char>>)
    requires
        effect_for(table, id) matches Some(EffectView::EmitEvent { .. }),
    ensures
        action_for(table, id, windows) == (HostActionView::Emit {
            event_name: effect_for(table, id)->Some_0->event_name,
            payload: effect_for(table, id)->Some_0->payload,
        }),
{
}

/// The mapping from menu item ids to effects. It is built once and only read
/// afterwards.
#[derive(Debug)]
pub struct DispatchTable {
    entries: Vec<DispatchEntry>,
}

impl View for DispatchTable {
    type V = Seq<DispatchEntryView>;

    closed spec fn view(&self) -> Seq<DispatchEntryView> {
        entry_views(self.entries@)
    }
}

/// The models of a run of lines, in order.
pub open spec fn entry_views(entries: Seq<DispatchEntry>) -> Seq<DispatchEntryView> {
    Seq::new(entries.len(), |i: int| entries[i]@)
}

impl DispatchTable {
    /// The table with the given lines. Where two lines answer to one id, the
    /// earlier one is used.
    pub fn new(entries: Vec<DispatchEntry>) -> (table: DispatchTable)
        ensures
            table@ == entry_views(entries@),
    {
        DispatchTable { entries }
    }

    /// The lines of the table, in order.
    pub fn entries(&self) -> (entries: &Vec<DispatchEntry>)
        ensures
            entry_views(entries@) == self@,
    {
        &self.entries
    }

    /// The effect recorded for `id`, or `None` where the table has no line for
    /// it.
    pub fn lookup(&self, id: &str) -> (found: Option<&Effect>)
        ensures
            match found {
                Some(effect) => effect_for(self@, id@) == Some(effect@),
                None => effect_for(self@, id@) is None,
            },
    {
        let wanted = String::from_str(id);
        let ghost table = self@;
        let mut i: usize = 0;
        assert(table.skip(0) =~= table);
        while i < self.entries.len()
            invariant
                i <= self.entries.len(),
                table == entry_views(self.entries@),
                wanted@ == id@,
                effect_for(table, id@) == effect_for(table.skip(i as int), id@),
            decreases self.entries.len() - i,
        {
            let ghost rest = table.skip(i as int);
            assert(rest.first() == self.entries[i as int]@);
            assert(rest.drop_first() =~= table.skip(i as int + 1));
            if self.entries[i].match_id == wanted {
                return Some(&self.entries[i].effect);
            }
            i += 1;
        }
        None
    }

    /// Decides what a menu selection brings about.
    ///
    /// `id` is the id of the selected item and `windows` holds the labels of the
    /// windows that are open. An id that the table does not know, and a window
    /// operation while the main window is not open, ask nothing of the host.
    /// Every selection is decided by itself: nothing is remembered between two.
    pub fn on_menu_select(&self, id: &str, windows: &Vec<String>) -> (action: HostAction)
        ensures
            action@ == action_for(self@, id@, texts(windows@)),
    {
        match self.lookup(id) {
            None => HostAction::Nothing,
            Some(Effect::EmitEvent { event_name, payload }) => HostAction::Emit {
                event_name: event_name.clone(),
                payload: copied_text(payload),
            },
            Some(Effect::WindowOp(operation)) => {
                let label = main_window_label();
                if occurs_in(windows, &label) {
                    HostAction::Window { label, operation: *operation }
                } else {
                    HostAction::Nothing
                }
            },
        }
    }
}

} // verus!
