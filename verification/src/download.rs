//! Handing text to the browser as a file download.
//!
//! A download takes five operations on the page: create a temporary object
//! URL for the content, point an anchor at it, name the file, activate the
//! anchor, release the URL. The machine here says which operation comes next
//! and what the download came to; the caller performs each operation and
//! reports whether it worked.

use vstd::prelude::*;
use vstd::string::*;

verus! {

/// Why a download could not be set up.
#[derive(Clone, Copy, Debug, PartialEq, Eq, Structural)]
pub enum DownloadError {
    /// No object URL could be created for the content.
    UrlCreation,
    /// The anchor's address could not be set.
    HrefAssignment,
    /// The anchor's file name could not be set.
    FilenameAssignment,
}

/// One operation on the page, or the end of the download.
#[derive(Clone, Copy, Debug, PartialEq, Eq, Structural)]
pub enum DownloadAction {
    /// Wrap the content in a blob and create an object URL for it.
    CreateObjectUrl,
    /// Create an anchor and set its `href` to the object URL.
    SetHref,
    /// Set the anchor's `download` attribute to the file name.
    SetFilename,
    /// Activate the anchor.
    Click,
    /// Release the object URL.
    RevokeObjectUrl,
    /// Nothing is left to do; the download ended without an error (`None`)
    /// or with the one given.
    Finish(Option<DownloadError>),
}

/// Where a download stands: the operation whose outcome is awaited.
#[derive(Clone, Copy, Debug, PartialEq, Eq, Structural)]
pub enum DownloadState {
    /// Waiting for the object URL.
    CreatingUrl,
    /// Waiting for the anchor's address to be set.
    SettingHref,
    /// Waiting for the anchor's file name to be set.
    SettingFilename,
    /// Waiting for the anchor to be activated.
    Clicking,
    /// Waiting for the object URL to be released; holds the error to report.
    Releasing(Option<DownloadError>),
    /// Over, with the error to report.
    Finished(Option<DownloadError>),
}

/// The state and the operation that follow when the awaited operation worked
/// (`ok`) or failed.
pub open spec fn next_of(state: DownloadState, ok: bool) -> (DownloadState, DownloadAction) {
    match state {
        DownloadState::CreatingUrl => if ok {
            (DownloadState::SettingHref, DownloadAction::SetHref)
        } else {
            (
                DownloadState::Finished(Some(DownloadError::UrlCreation)),
                DownloadAction::Finish(Some(DownloadError::UrlCreation)),
            )
        },
        DownloadState::SettingHref => if ok {
            (DownloadState::SettingFilename, DownloadAction::SetFilename)
        } else {
            (
                DownloadState::Releasing(Some(DownloadError::HrefAssignment)),
                DownloadAction::RevokeObjectUrl,
            )
        },
        DownloadState::SettingFilename => if ok {
            (DownloadState::Clicking, DownloadAction::Click)
        } else {
            (
                DownloadState::Releasing(Some(DownloadError::FilenameAssignment)),
                DownloadAction::RevokeObjectUrl,
            )
        },
        DownloadState::Clicking => (DownloadState::Releasing(None), DownloadAction::RevokeObjectUrl),
        DownloadState::Releasing(error) => (
            DownloadState::Finished(error),
            DownloadAction::Finish(error),
        ),
        DownloadState::Finished(error) => (
            DownloadState::Finished(error),
            DownloadAction::Finish(error),
        ),
    }
}

/// An object URL exists in this state and has not been released.
pub open spec fn holds_url(state: DownloadState) -> bool {
    state is SettingHref || state is SettingFilename || state is Clicking
}

/// The state after `outcomes` were reported one by one, starting in `state`.
pub open spec fn state_after(state: DownloadState, outcomes: Seq<bool>) -> DownloadState
    decreases outcomes.len(),
{
    if outcomes.len() == 0 {
        state
    } else {
        next_of(state_after(state, outcomes.drop_last()), outcomes.last()).0
    }
}

/// The operations asked for while `outcomes` were reported one by one,
/// starting in `state`.
pub open spec fn actions_after(state: DownloadState, outcomes: Seq<bool>) -> Seq<DownloadAction>
    decreases outcomes.len(),
{
    if outcomes.len() == 0 {
        Seq::empty()
    } else {
        actions_after(state, outcomes.drop_last()).push(
            next_of(state_after(state, outcomes.drop_last()), outcomes.last()).1,
        )
    }
}

/// The result of a download that ended with `error`.
pub open spec fn result_of(error: Option<DownloadError>) -> Result<(), DownloadError> {
    match error {
        Some(e) => Err(e),
        None => Ok(()),
    }
}

/// The text shown to the user for each error.
pub open spec fn error_text(error: DownloadError) -> Seq<char> {
    match error {
        DownloadError::UrlCreation => "Failed to save response (couldn't setup url)"@,
        DownloadError::HrefAssignment => "Failed to save response (couldn't get download url)"@,
        DownloadError::FilenameAssignment => "Failed to save response (couldn't set filename)"@,
    }
}

impl DownloadError {
    /// The text shown to the user for this error.
    pub fn message(&self) -> (text: String)
        ensures
            text@ == error_text(*self),
    {
        match self {
            DownloadError::UrlCreation => String::from_str(
                "Failed to save response (couldn't setup url)",
            ),
            DownloadError::HrefAssignment => String::from_str(
                "Failed to save response (couldn't get download url)",
            ),
            DownloadError::FilenameAssignment => String::from_str(
                "Failed to save response (couldn't set filename)",
            ),
        }
    }
}

/// Starts a download: the first operation is to create the object URL.
pub fn begin_download() -> (start: (DownloadState, DownloadAction))
    ensures
        start == (DownloadState::CreatingUrl, DownloadAction::CreateObjectUrl),
{
    (DownloadState::CreatingUrl, DownloadAction::CreateObjectUrl)
}

/// Takes the outcome of the awaited operation and says what comes next.
pub fn next_download(state: DownloadState, ok: bool) -> (next: (DownloadState, DownloadAction))
    ensures
        next == next_of(state, ok),
{
    match state {
        DownloadState::CreatingUrl => {
            if ok {
                (DownloadState::SettingHref, DownloadAction::SetHref)
            } else {
                (
                    DownloadState::Finished(Some(DownloadError::UrlCreation)),
                    DownloadAction::Finish(Some(DownloadError::UrlCreation)),
                )
            }
        },
        DownloadState::SettingHref => {
            if ok {
                (DownloadState::SettingFilename, DownloadAction::SetFilename)
            } else {
                (
                    DownloadState::Releasing(Some(DownloadError::HrefAssignment)),
                    DownloadAction::RevokeObjectUrl,
                )
            }
        },
        DownloadState::SettingFilename => {
            if ok {
                (DownloadState::Clicking, DownloadAction::Click)
            } else {
                (
                    DownloadState::Releasing(Some(DownloadError::FilenameAssignment)),
                    DownloadAction::RevokeObjectUrl,
                )
            }
        },
        DownloadState::Clicking => (DownloadState::Releasing(None), DownloadAction::RevokeObjectUrl),
        DownloadState::Releasing(error) => (
            DownloadState::Finished(error),
            DownloadAction::Finish(error),
        ),
        DownloadState::Finished(error) => (
            DownloadState::Finished(error),
            DownloadAction::Finish(error),
        ),
    }
}

/// The result of a download that has finished, `None` while it is under way.
pub fn download_result(state: DownloadState) -> (result: Option<Result<(), DownloadError>>)
    ensures
        result == match state {
            DownloadState::Finished(error) => Some(result_of(error)),
            _ => None,
        },
{
    match state {
        DownloadState::Finished(Some(e)) => Some(Err(e)),
        DownloadState::Finished(None) => Some(Ok(())),
        _ => None,
    }
}

/// A download that cannot get its object URL ends at once with that error:
/// no operation on the page follows, whatever is reported afterwards.
pub proof fn lemma_url_failure_ends_download(outcomes: Seq<bool>)
    ensures
        next_of(DownloadState::CreatingUrl, false) == (
            DownloadState::Finished(Some(DownloadError::UrlCreation)),
            DownloadAction::Finish(Some(DownloadError::UrlCreation)),
        ),
        state_after(DownloadState::Finished(Some(DownloadError::UrlCreation)), outcomes)
            == DownloadState::Finished(Some(DownloadError::UrlCreation)),
        forall|i: int|
            0 <= i < outcomes.len() ==> #[trigger] actions_after(
                DownloadState::Finished(Some(DownloadError::UrlCreation)),
                outcomes,
            )[i] == DownloadAction::Finish(Some(DownloadError::UrlCreation)),
        actions_after(DownloadState::Finished(Some(DownloadError::UrlCreation)), outcomes).len()
            == outcomes.len(),
    decreases outcomes.len(),
{
    if outcomes.len() > 0 {
        lemma_url_failure_ends_download(outcomes.drop_last());
    }
}

/// While an object URL is held the download does not end: the step that
/// leaves the last such state is the release of the URL, and the end comes
/// only after it.
pub proof fn lemma_url_released_before_end(state: DownloadState, ok: bool)
    requires
        holds_url(state),
    ensures
        !(next_of(state, ok).1 is Finish),
        !(next_of(state, ok).0 is Finished),
        !holds_url(next_of(state, ok).0) ==> next_of(state, ok).1
            == DownloadAction::RevokeObjectUrl && next_of(state, ok).0 is Releasing,
{
}

/// Once the release was asked for, the next step ends the download with the
/// error that was kept, or with none after a click.
pub proof fn lemma_release_then_end(error: Option<DownloadError>, ok: bool)
    ensures
        next_of(DownloadState::Releasing(error), ok) == (
            DownloadState::Finished(error),
            DownloadAction::Finish(error),
        ),
{
}

/// A download whose three fallible operations all work asks for the five
/// operations in order and ends without an error.
pub proof fn lemma_full_download(click_ok: bool, release_ok: bool)
    ensures
        actions_after(
            DownloadState::CreatingUrl,
            seq![true, true, true, click_ok, release_ok],
        ) == seq![
            DownloadAction::SetHref,
            DownloadAction::SetFilename,
            DownloadAction::Click,
            DownloadAction::RevokeObjectUrl,
            DownloadAction::Finish(None),
        ],
{
    let s = DownloadState::CreatingUrl;
    let o5 = seq![true, true, true, click_ok, release_ok];
    let o4 = seq![true, true, true, click_ok];
    let o3 = seq![true, true, true];
    let o2 = seq![true, true];
    let o1 = seq![true];
    let o0 = Seq::<bool>::empty();
    assert(o5.drop_last() =~= o4);
    assert(o4.drop_last() =~= o3);
    assert(o3.drop_last() =~= o2);
    assert(o2.drop_last() =~= o1);
    assert(o1.drop_last() =~= o0);
    assert(state_after(s, o0) == s);
    assert(state_after(s, o1) == DownloadState::SettingHref);
    assert(state_after(s, o2) == DownloadState::SettingFilename);
    assert(state_after(s, o3) == DownloadState::Clicking);
    assert(state_after(s, o4) == DownloadState::Releasing(None));
    assert(actions_after(s, o0) =~= Seq::empty());
    assert(actions_after(s, o1) =~= seq![DownloadAction::SetHref]);
    assert(actions_after(s, o2) =~= seq![DownloadAction::SetHref, DownloadAction::SetFilename]);
    assert(actions_after(s, o3) =~= seq![
        DownloadAction::SetHref,
        DownloadAction::SetFilename,
        DownloadAction::Click,
    ]);
    assert(actions_after(s, o4) =~= seq![
        DownloadAction::SetHref,
        DownloadAction::SetFilename,
        DownloadAction::Click,
        DownloadAction::RevokeObjectUrl,
    ]);
    assert(actions_after(s, o5) =~= seq![
        DownloadAction::SetHref,
        DownloadAction::SetFilename,
        DownloadAction::Click,
        DownloadAction::RevokeObjectUrl,
        DownloadAction::Finish(None),
    ]);
}

} // verus!
