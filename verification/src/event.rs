use crate::action::{lemma_from_id_finds_the_owner, MenuAction};
use crate::submenu::{help_entries, MenuEntry};
use vstd::prelude::*;

verus! {

/// The activation of a menu item: it carries the identifier of the item that
/// the user chose, which may be any item of the application's menu bar.
#[derive(Debug, PartialEq, Eq)]
pub struct MenuEvent {
    pub id: String,
}

/// A call for an address to be opened by whatever the system opens addresses
/// with. The call is made once, and how it ends is of no interest to the
/// one who asked for it.
#[derive(Clone, Copy, Debug, PartialEq, Eq)]
pub struct OpenUrl {
    /// The address to open.
    pub url: &'static str,
    /// The application to open it with, where the system's choice is not
    /// wanted.
    pub with: Option<&'static str>,
}

impl MenuEvent {
    /// The event for the item with this identifier.
    pub fn new(id: String) -> (event: MenuEvent)
        ensures
            event.id == id,
    {
        MenuEvent { id }
    }

    /// The identifier of the item that was activated.
    pub fn id(&self) -> (id: &str)
        ensures
            id@ == self.id@,
    {
        self.id.as_str()
    }
}

/// What a menu event calls for.
///
/// For the identifier of a Help action that is one call, for the address
/// of that action and with no application named. Any other identifier,
/// the empty one too, calls for nothing. The answer rests on the event
/// alone: nothing that became of an earlier call changes it.
pub fn handle_menu_event(event: &MenuEvent) -> (call: Option<OpenUrl>)
    ensures
        forall|action: MenuAction|
            #![trigger action.spec_id()]
            event.id@ == action.spec_id() ==> (call matches Some(open)
                && open.url@ == action.spec_url()
                && open.with is None),
        (forall|action: MenuAction| event.id@ != #[trigger] action.spec_id()) ==> call is None,
{
    proof {
        lemma_from_id_finds_the_owner(event.id@, MenuAction::PrivacyPolicy);
        lemma_from_id_finds_the_owner(event.id@, MenuAction::ReportIssue);
        lemma_from_id_finds_the_owner(event.id@, MenuAction::VlarchHelp);
    }
    match MenuAction::from_id(event.id()) {
        Some(action) => Some(OpenUrl { url: action.url(), with: None }),
        None => None,
    }
}

/// Whether `id` is the identifier of an action that stands in the Help
/// submenu.
pub open spec fn stands_in_help_submenu(id: Seq<char>) -> bool {
    exists|i: int|
        0 <= i < help_entries().len() && ((#[trigger] help_entries()[i]) matches MenuEntry::Action(
            action,
        ) && action.spec_id() == id)
}

/// The identifiers that call for something are those of the actions that
/// stand in the Help submenu, no more and no fewer.
pub proof fn lemma_answered_ids_stand_in_help_submenu(id: Seq<char>)
    ensures
        stands_in_help_submenu(id) <==> exists|action: MenuAction|
            id == #[trigger] action.spec_id(),
{
    let entries = help_entries();
    if exists|action: MenuAction| id == #[trigger] action.spec_id() {
        let action = choose|action: MenuAction| id == #[trigger] action.spec_id();
        let i: int = match action {
            MenuAction::PrivacyPolicy => 0,
            MenuAction::ReportIssue => 2,
            MenuAction::VlarchHelp => 3,
        };
        assert(entries[i] == MenuEntry::Action(action));
    }
}

} // verus!
