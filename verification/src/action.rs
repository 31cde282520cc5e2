use crate::text::same_text;
use vstd::prelude::*;

verus! {

/// An entry of the Help submenu that does something when it is activated.
///
/// Each action has an identifier, by which an activation is told from
/// another, a label, which the menu shows, and the address that is opened
/// when the action is activated.
#[derive(Clone, Copy, Debug, PartialEq, Eq, Structural)]
pub enum MenuAction {
    /// Shows the privacy policy.
    PrivacyPolicy,
    /// Leads to where an issue can be reported.
    ReportIssue,
    /// Shows the help pages.
    VlarchHelp,
}

impl MenuAction {
    /// The characters of the action's identifier.
    pub open spec fn spec_id(self) -> Seq<char> {
        match self {
            MenuAction::PrivacyPolicy => "privacy_policy"@,
            MenuAction::ReportIssue => "report_issue"@,
            MenuAction::VlarchHelp => "vlarch_help"@,
        }
    }

    /// The characters of the action's label.
    pub open spec fn spec_label(self) -> Seq<char> {
        match self {
            MenuAction::PrivacyPolicy => "Privacy Policy"@,
            MenuAction::ReportIssue => "Report An Issue..."@,
            MenuAction::VlarchHelp => "VL-Arch Help"@,
        }
    }

    /// The characters of the address that the action opens.
    pub open spec fn spec_url(self) -> Seq<char> {
        match self {
            MenuAction::PrivacyPolicy => "https://vlarch.com/privacy-policy"@,
            MenuAction::ReportIssue => "https://github.com/vl-arch/vl-arch/issues"@,
            MenuAction::VlarchHelp => "https://vlarch.com/support"@,
        }
    }

    /// The action that an identifier names: the identifier is held against
    /// those of the three actions in turn, character for character.
    pub open spec fn spec_from_id(id: Seq<char>) -> Option<MenuAction> {
        if id == MenuAction::PrivacyPolicy.spec_id() {
            Some(MenuAction::PrivacyPolicy)
        } else if id == MenuAction::ReportIssue.spec_id() {
            Some(MenuAction::ReportIssue)
        } else if id == MenuAction::VlarchHelp.spec_id() {
            Some(MenuAction::VlarchHelp)
        } else {
            None
        }
    }

    /// The action that an identifier names, if it names one.
    pub fn from_id(id: &str) -> (found: Option<MenuAction>)
        ensures
            found == MenuAction::spec_from_id(id@),
    {
        if same_text(id, MenuAction::PrivacyPolicy.id()) {
            Some(MenuAction::PrivacyPolicy)
        } else if same_text(id, MenuAction::ReportIssue.id()) {
            Some(MenuAction::ReportIssue)
        } else if same_text(id, MenuAction::VlarchHelp.id()) {
            Some(MenuAction::VlarchHelp)
        } else {
            None
        }
    }

    /// The token by which an activation of this action is told from another.
    pub fn id(self) -> (id: &'static str)
        ensures
            id@ == self.spec_id(),
    {
        match self {
            MenuAction::PrivacyPolicy => "privacy_policy",
            MenuAction::ReportIssue => "report_issue",
            MenuAction::VlarchHelp => "vlarch_help",
        }
    }

    /// The text that the menu shows for this action.
    pub fn label(self) -> (label: &'static str)
        ensures
            label@ == self.spec_label(),
    {
        match self {
            MenuAction::PrivacyPolicy => "Privacy Policy",
            MenuAction::ReportIssue => "Report An Issue...",
            MenuAction::VlarchHelp => "VL-Arch Help",
        }
    }

    /// The address that is opened when this action is activated.
    pub fn url(self) -> (url: &'static str)
        ensures
            url@ == self.spec_url(),
    {
        match self {
            MenuAction::PrivacyPolicy => "https://vlarch.com/privacy-policy",
            MenuAction::ReportIssue => "https://github.com/vl-arch/vl-arch/issues",
            MenuAction::VlarchHelp => "https://vlarch.com/support",
        }
    }
}

/// No two actions share an identifier.
pub proof fn lemma_ids_are_distinct(a: MenuAction, b: MenuAction)
    requires
        a.spec_id() == b.spec_id(),
    ensures
        a == b,
{
    reveal_strlit("privacy_policy");
    reveal_strlit("report_issue");
    reveal_strlit("vlarch_help");
    assert("privacy_policy"@.len() == 14);
    assert("report_issue"@.len() == 12);
    assert("vlarch_help"@.len() == 11);
}

/// An identifier names an action exactly when it is that action's own.
pub proof fn lemma_from_id_finds_the_owner(id: Seq<char>, action: MenuAction)
    ensures
        MenuAction::spec_from_id(id) == Some(action) <==> id == action.spec_id(),
{
    if id == action.spec_id() {
        match MenuAction::spec_from_id(id) {
            Some(other) => lemma_ids_are_distinct(other, action),
            None => {},
        }
    }
}

} // verus!
