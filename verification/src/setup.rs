use vstd::prelude::*;

verus! {

/// How far a run of the setup has come.
#[derive(Clone, Copy, Debug, PartialEq, Eq, Structural)]
pub enum SetupState {
    /// Nothing has been asked for yet.
    Start,
    /// The toolkit's own Help submenu is being looked up.
    Locating,
    /// The toolkit's own Help submenu is being removed.
    Removing,
    /// The Help submenu is being built and appended.
    Appending,
    /// The listener for menu events is being registered.
    Listening,
    /// Setup has ended well.
    Done,
    /// Setup has ended with the failure of the step that was under way.
    Failed,
}

impl SetupState {
    /// Whether setup has ended, well or not.
    pub open spec fn has_ended(self) -> bool {
        self == SetupState::Done || self == SetupState::Failed
    }
}

/// A step that setup asks its caller to carry out on the menu bar.
#[derive(Clone, Copy, Debug, PartialEq, Eq, Structural)]
pub enum SetupRequest {
    /// Look the toolkit's own Help submenu up among the top-level items,
    /// by the identifier that the toolkit files it under.
    LocateStockHelp,
    /// Take the submenu that was found out of the menu bar.
    RemoveStockHelp,
    /// Build the Help submenu and add it at the end of the menu bar.
    AppendHelp,
    /// Register the listener that answers the menu events of the whole
    /// application from now on.
    Listen,
}

/// How the step that was asked for last has ended.
#[derive(Clone, Copy, Debug, PartialEq, Eq, Structural)]
pub enum SetupReport {
    /// The lookup found the submenu.
    Found,
    /// The lookup found nothing.
    Missing,
    /// The step was carried out.
    Succeeded,
    /// The step failed.
    Failed,
}

/// The state that follows `state` once `report` has come in, and the step to
/// carry out next, if there is one.
///
/// The lookup comes first. A submenu that was found is removed, one that is
/// missing is no failure. Then the Help submenu is appended and the listener
/// registered. A report other than the ones that lead on ends setup as
/// failed, and nothing is asked for after the end.
pub open spec fn setup_step(state: SetupState, report: Option<SetupReport>) -> (
    SetupState,
    Option<SetupRequest>,
) {
    match (state, report) {
        (SetupState::Start, _) => (SetupState::Locating, Some(SetupRequest::LocateStockHelp)),
        (SetupState::Locating, Some(SetupReport::Found)) => (
            SetupState::Removing,
            Some(SetupRequest::RemoveStockHelp),
        ),
        (SetupState::Locating, Some(SetupReport::Missing)) => (
            SetupState::Appending,
            Some(SetupRequest::AppendHelp),
        ),
        (SetupState::Removing, Some(SetupReport::Succeeded)) => (
            SetupState::Appending,
            Some(SetupRequest::AppendHelp),
        ),
        (SetupState::Appending, Some(SetupReport::Succeeded)) => (
            SetupState::Listening,
            Some(SetupRequest::Listen),
        ),
        (SetupState::Listening, Some(SetupReport::Succeeded)) => (SetupState::Done, None),
        (SetupState::Done, _) => (SetupState::Done, None),
        _ => (SetupState::Failed, None),
    }
}

/// One step of setting the menu bar up.
///
/// The caller starts with `SetupState::Start` and no report, carries out
/// each step that is asked for and comes back with the new state and the
/// step's report, until no step is asked for. Setup has then ended, in
/// `SetupState::Done` or in `SetupState::Failed`.
pub fn setup_macos_menu(state: SetupState, report: Option<SetupReport>) -> (next: (
    SetupState,
    Option<SetupRequest>,
))
    ensures
        next == setup_step(state, report),
{
    match state {
        SetupState::Start => (SetupState::Locating, Some(SetupRequest::LocateStockHelp)),
        SetupState::Locating => match report {
            Some(SetupReport::Found) => (SetupState::Removing, Some(SetupRequest::RemoveStockHelp)),
            Some(SetupReport::Missing) => (SetupState::Appending, Some(SetupRequest::AppendHelp)),
            _ => (SetupState::Failed, None),
        },
        SetupState::Removing => match report {
            Some(SetupReport::Succeeded) => (
                SetupState::Appending,
                Some(SetupRequest::AppendHelp),
            ),
            _ => (SetupState::Failed, None),
        },
        SetupState::Appending => match report {
            Some(SetupReport::Succeeded) => (SetupState::Listening, Some(SetupRequest::Listen)),
            _ => (SetupState::Failed, None),
        },
        SetupState::Listening => match report {
            Some(SetupReport::Succeeded) => (SetupState::Done, None),
            _ => (SetupState::Failed, None),
        },
        SetupState::Done => (SetupState::Done, None),
        SetupState::Failed => (SetupState::Failed, None),
    }
}

/// Setup asks for a step as long as it has not ended and for none once it
/// has. From then on it stays where it is, whatever is reported.
pub proof fn lemma_setup_asks_until_it_ends(state: SetupState, report: Option<SetupReport>)
    ensures
        setup_step(state, report).1 is None <==> setup_step(state, report).0.has_ended(),
        state.has_ended() ==> setup_step(state, report) == (state, None::<SetupRequest>),
{
}

/// A step that is reported to have failed ends setup as failed, whichever
/// step it was: nothing is asked for after it, and nothing is tried again.
pub proof fn lemma_failure_ends_setup(state: SetupState)
    requires
        state != SetupState::Start,
        !state.has_ended(),
    ensures
        setup_step(state, Some(SetupReport::Failed)) == (SetupState::Failed, None::<SetupRequest>),
{
}

} // verus!
