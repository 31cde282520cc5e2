use help_menu::{help_submenu, MenuAction, MenuEntry};

#[test]
fn help_submenu_is_titled_help() {
    assert_eq!(help_submenu().title, "Help");
}

#[test]
fn help_submenu_lists_its_lines_in_order() {
    assert_eq!(
        help_submenu().entries,
        vec![
            MenuEntry::Action(MenuAction::PrivacyPolicy),
            MenuEntry::Separator,
            MenuEntry::Action(MenuAction::ReportIssue),
            MenuEntry::Action(MenuAction::VlarchHelp),
        ]
    );
}

#[test]
fn help_submenu_shows_its_labels_in_order() {
    let shown: Vec<&str> = help_submenu()
        .entries
        .iter()
        .map(|entry| match entry {
            MenuEntry::Action(action) => action.label(),
            MenuEntry::Separator => "-",
        })
        .collect();
    assert_eq!(shown, vec!["Privacy Policy", "-", "Report An Issue...", "VL-Arch Help"]);
}

#[test]
fn actions_have_their_identifiers() {
    assert_eq!(MenuAction::PrivacyPolicy.id(), "privacy_policy");
    assert_eq!(MenuAction::ReportIssue.id(), "report_issue");
    assert_eq!(MenuAction::VlarchHelp.id(), "vlarch_help");
}

#[test]
fn actions_have_their_labels() {
    assert_eq!(MenuAction::PrivacyPolicy.label(), "Privacy Policy");
    assert_eq!(MenuAction::ReportIssue.label(), "Report An Issue...");
    assert_eq!(MenuAction::VlarchHelp.label(), "VL-Arch Help");
}

#[test]
fn actions_have_their_addresses() {
    assert_eq!(MenuAction::PrivacyPolicy.url(), "https://vlarch.com/privacy-policy");
    assert_eq!(MenuAction::ReportIssue.url(), "https://github.com/vl-arch/vl-arch/issues");
    assert_eq!(MenuAction::VlarchHelp.url(), "https://vlarch.com/support");
}

#[test]
fn identifiers_name_their_actions() {
    assert_eq!(MenuAction::from_id("privacy_policy"), Some(MenuAction::PrivacyPolicy));
    assert_eq!(MenuAction::from_id("report_issue"), Some(MenuAction::ReportIssue));
    assert_eq!(MenuAction::from_id("vlarch_help"), Some(MenuAction::VlarchHelp));
    for action in [MenuAction::PrivacyPolicy, MenuAction::ReportIssue, MenuAction::VlarchHelp] {
        assert_eq!(MenuAction::from_id(action.id()), Some(action));
    }
}

#[test]
fn other_texts_name_no_action() {
    for id in ["", "privacy", "privacy_policy_", "report_issu", "VLARCH_HELP", "Help", "vlarch_hel\u{fe}"] {
        assert_eq!(MenuAction::from_id(id), None, "{:?}", id);
    }
}

#[test]
fn identifiers_differ_from_one_another() {
    let actions = [MenuAction::PrivacyPolicy, MenuAction::ReportIssue, MenuAction::VlarchHelp];
    for a in actions {
        for b in actions {
            assert_eq!(a.id() == b.id(), a == b);
        }
    }
}

#[test]
fn answered_identifiers_are_those_of_the_submenu() {
    let in_submenu: Vec<&str> = help_submenu()
        .entries
        .iter()
        .filter_map(|entry| match entry {
            MenuEntry::Action(action) => Some(action.id()),
            MenuEntry::Separator => None,
        })
        .collect();
    assert_eq!(in_submenu, vec!["privacy_policy", "report_issue", "vlarch_help"]);
    for id in in_submenu {
        assert!(MenuAction::from_id(id).is_some());
    }
}
