use crate::setup::{setup_step, SetupReport, SetupRequest, SetupState};
use crate::submenu::{help_entries, help_title, MenuEntry};
use vstd::prelude::*;

verus! {

/// A top-level item of a menu bar.
pub struct BarItem {
    /// The identifier that the item is filed under.
    pub id: Seq<char>,
    /// The title that the menu bar shows for it.
    pub title: Seq<char>,
    /// Its lines, from the top down.
    pub entries: Seq<MenuEntry>,
}

/// A menu bar: its top-level items from first to last, and the number of
/// listeners that are registered for its events.
pub struct MenuBar {
    pub items: Seq<BarItem>,
    pub listeners: nat,
}

/// What is not in setup's hands while its steps are carried out.
pub struct Toolkit {
    /// The identifier that the toolkit files its own Help submenu under.
    pub stock_help_id: Seq<char>,
    /// The identifier that the toolkit gives the submenu that is appended.
    pub fresh_id: Seq<char>,
    /// Whether taking an item out of the menu bar fails.
    pub remove_fails: bool,
    /// Whether building the submenu or adding it to the menu bar fails.
    pub append_fails: bool,
}

/// Whether an item is filed under another identifier than `id`.
pub open spec fn filed_elsewhere(id: Seq<char>) -> spec_fn(BarItem) -> bool {
    |item: BarItem| item.id != id
}

impl MenuBar {
    /// Whether some top-level item is filed under `id`.
    pub open spec fn holds(self, id: Seq<char>) -> bool {
        exists|i: int| 0 <= i < self.items.len() && (#[trigger] self.items[i]).id == id
    }

    /// The menu bar once what is filed under `id` has been taken out.
    pub open spec fn without(self, id: Seq<char>) -> MenuBar {
        MenuBar { items: self.items.filter(filed_elsewhere(id)), listeners: self.listeners }
    }

    /// The menu bar once `item` has been added at its end.
    pub open spec fn with_last(self, item: BarItem) -> MenuBar {
        MenuBar { items: self.items.push(item), listeners: self.listeners }
    }

    /// The menu bar once one more listener has been registered.
    pub open spec fn with_listener(self) -> MenuBar {
        MenuBar { items: self.items, listeners: self.listeners + 1 }
    }
}

impl Toolkit {
    /// The Help submenu as it stands in the menu bar once it is appended.
    pub open spec fn help_item(self) -> BarItem {
        BarItem { id: self.fresh_id, title: help_title(), entries: help_entries() }
    }

    /// Whether the step fails.
    pub open spec fn fails(self, request: SetupRequest) -> bool {
        match request {
            SetupRequest::RemoveStockHelp => self.remove_fails,
            SetupRequest::AppendHelp => self.append_fails,
            SetupRequest::LocateStockHelp | SetupRequest::Listen => false,
        }
    }

    /// The report that comes back when the step is carried out on `bar`.
    pub open spec fn report(self, request: SetupRequest, bar: MenuBar) -> SetupReport {
        match request {
            SetupRequest::LocateStockHelp => if bar.holds(self.stock_help_id) {
                SetupReport::Found
            } else {
                SetupReport::Missing
            },
            _ => if self.fails(request) {
                SetupReport::Failed
            } else {
                SetupReport::Succeeded
            },
        }
    }

    /// The menu bar as the step leaves it. A step that fails leaves it as it
    /// was.
    pub open spec fn carry_out(self, request: SetupRequest, bar: MenuBar) -> MenuBar {
        if self.fails(request) {
            bar
        } else {
            match request {
                SetupRequest::LocateStockHelp => bar,
                SetupRequest::RemoveStockHelp => bar.without(self.stock_help_id),
                SetupRequest::AppendHelp => bar.with_last(self.help_item()),
                SetupRequest::Listen => bar.with_listener(),
            }
        }
    }
}

/// The most steps that setup still asks for from `state` on.
pub open spec fn steps_left(state: SetupState) -> nat {
    match state {
        SetupState::Start => 4,
        SetupState::Locating => 3,
        SetupState::Removing => 2,
        SetupState::Appending => 1,
        SetupState::Listening | SetupState::Done | SetupState::Failed => 0,
    }
}

/// Where setup ends, and what it leaves of `bar`, when it goes on from
/// `state` with `report` and each step that it asks for is carried out.
pub open spec fn run(
    toolkit: Toolkit,
    state: SetupState,
    report: Option<SetupReport>,
    bar: MenuBar,
) -> (SetupState, MenuBar)
    decreases steps_left(state),
{
    let (next, request) = setup_step(state, report);
    match request {
        Some(request) => run(
            toolkit,
            next,
            Some(toolkit.report(request, bar)),
            toolkit.carry_out(request, bar),
        ),
        None => (next, bar),
    }
}

/// Where a whole setup ends, and what it leaves of `bar`.
pub open spec fn setup(toolkit: Toolkit, bar: MenuBar) -> (SetupState, MenuBar) {
    run(toolkit, SetupState::Start, None, bar)
}

/// A sequence whose items all pass a filter passes it unchanged.
proof fn lemma_filter_keeps_all<A>(s: Seq<A>, pred: spec_fn(A) -> bool)
    requires
        forall|i: int| 0 <= i < s.len() ==> pred(#[trigger] s[i]),
    ensures
        s.filter(pred) == s,
    decreases s.len(),
{
    reveal(Seq::filter);
    if s.len() > 0 {
        lemma_filter_keeps_all(s.drop_last(), pred);
        assert(s.drop_last().push(s.last()) =~= s);
    }
}

/// A filter that only the item at `k` fails takes out that item and no
/// other.
proof fn lemma_filter_drops_one<A>(s: Seq<A>, pred: spec_fn(A) -> bool, k: int)
    requires
        0 <= k < s.len(),
        !pred(s[k]),
        forall|i: int| 0 <= i < s.len() && i != k ==> pred(#[trigger] s[i]),
    ensures
        s.filter(pred) == s.remove(k),
    decreases s.len(),
{
    reveal(Seq::filter);
    if k == s.len() - 1 {
        lemma_filter_keeps_all(s.drop_last(), pred);
        assert(s.remove(k) =~= s.drop_last());
    } else {
        lemma_filter_drops_one(s.drop_last(), pred, k);
        assert(s.drop_last().remove(k).push(s.last()) =~= s.remove(k));
    }
}

/// Setup always comes to an end. It fails where the stock Help submenu is
/// there and cannot be removed, which leaves the menu bar as it was, and
/// where the new submenu cannot be appended, which leaves the menu bar
/// without either. Otherwise it ends well: what was filed under the stock
/// identifier is gone, the Help submenu is the last item, and one listener
/// more is registered.
pub proof fn lemma_setup_outcome(toolkit: Toolkit, bar: MenuBar)
    ensures
        setup(toolkit, bar) == if bar.holds(toolkit.stock_help_id) && toolkit.remove_fails {
            (SetupState::Failed, bar)
        } else if toolkit.append_fails {
            (SetupState::Failed, bar.without(toolkit.stock_help_id))
        } else {
            (
                SetupState::Done,
                bar.without(toolkit.stock_help_id).with_last(toolkit.help_item()).with_listener(),
            )
        },
{
    reveal_with_fuel(run, 6);
    if !bar.holds(toolkit.stock_help_id) {
        lemma_filter_keeps_all(bar.items, filed_elsewhere(toolkit.stock_help_id));
    }
}

/// Where the menu bar holds no stock Help submenu, that is no failure:
/// setup appends the Help submenu to the menu bar as it is.
pub proof fn lemma_setup_appends_without_stock_help(toolkit: Toolkit, bar: MenuBar)
    requires
        !bar.holds(toolkit.stock_help_id),
        !toolkit.append_fails,
    ensures
        setup(toolkit, bar).0 == SetupState::Done,
        setup(toolkit, bar).1.items == bar.items.push(toolkit.help_item()),
{
    lemma_setup_outcome(toolkit, bar);
    lemma_filter_keeps_all(bar.items, filed_elsewhere(toolkit.stock_help_id));
}

/// Where the stock Help submenu is the item at `k`, setup takes that one
/// item out, leaves the others in their order, and appends the Help submenu
/// after them.
pub proof fn lemma_setup_replaces_stock_help(toolkit: Toolkit, bar: MenuBar, k: int)
    requires
        0 <= k < bar.items.len(),
        bar.items[k].id == toolkit.stock_help_id,
        forall|i: int|
            0 <= i < bar.items.len() && i != k ==> (#[trigger] bar.items[i]).id
                != toolkit.stock_help_id,
        !toolkit.remove_fails,
        !toolkit.append_fails,
    ensures
        setup(toolkit, bar).0 == SetupState::Done,
        setup(toolkit, bar).1.items == bar.items.remove(k).push(toolkit.help_item()),
{
    lemma_setup_outcome(toolkit, bar);
    lemma_filter_drops_one(bar.items, filed_elsewhere(toolkit.stock_help_id), k);
}

/// After a setup that ended well the menu bar has one submenu titled Help,
/// its last item, provided that before it no item but the stock Help
/// submenu bore that title.
pub proof fn lemma_setup_leaves_one_help_submenu(toolkit: Toolkit, bar: MenuBar)
    requires
        forall|i: int|
            0 <= i < bar.items.len() && (#[trigger] bar.items[i]).title == help_title()
                ==> bar.items[i].id == toolkit.stock_help_id,
        setup(toolkit, bar).0 == SetupState::Done,
    ensures
        ({
            let items = setup(toolkit, bar).1.items;
            &&& items.len() >= 1
            &&& items.last() == toolkit.help_item()
            &&& forall|i: int| 0 <= i < items.len() - 1 ==> (#[trigger] items[i]).title != help_title()
        }),
{
    lemma_setup_outcome(toolkit, bar);
    let pred = filed_elsewhere(toolkit.stock_help_id);
    let kept = bar.items.filter(pred);
    let items = setup(toolkit, bar).1.items;
    assert(items == kept.push(toolkit.help_item()));
    assert forall|i: int| 0 <= i < items.len() - 1 implies (#[trigger] items[i]).title
        != help_title() by {
        bar.items.lemma_filter_pred(pred, i);
        bar.items.lemma_filter_contains_rev(pred, kept[i]);
        assert(items[i] == kept[i]);
    }
}

} // verus!
