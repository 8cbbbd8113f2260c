//! Capturing and releasing the cursor.
//!
//! Both are short scripts of system calls that differ from platform to platform.
//! A session hands out one call at a time and is told how it went.

use vstd::prelude::*;

verus! {

#[derive(Debug, Clone, Copy, PartialEq, Eq, Structural)]
pub enum Platform {
    Macos,
    Windows,
    Linux,
    Unsupported,
}

/// One call into the operating system.
#[derive(Debug, Clone, Copy, PartialEq, Eq, Structural)]
pub enum CursorAction {
    InitDisplay,
    UpdateCenter,
    DisableAcceleration,
    RestoreAcceleration,
    CenterCursor,
    HideCursor,
    ShowCursor,
    ClipToWindow,
    ReleaseClip,
    DetachMouse,
    AttachMouse,
}

/// Why a cursor could not be captured.
#[derive(Debug, Clone, Copy, PartialEq, Eq, Structural)]
pub enum CaptureError {
    DisplayUnavailable,
    WindowCenterUnknown,
    ScreenCenterUnknown,
    CursorNotHidden,
    PointerNotGrabbed,
    MouseNotDetached,
}

impl CaptureError {
    /// The message shown to the user.
    pub fn message(&self) -> (text: &'static str)
        ensures
            text@ == match self {
                CaptureError::DisplayUnavailable => "Failed to initialize X11 display"@,
                CaptureError::WindowCenterUnknown => "Failed to get window center"@,
                CaptureError::ScreenCenterUnknown => "Failed to get screen center"@,
                CaptureError::CursorNotHidden => "Failed to hide cursor"@,
                CaptureError::PointerNotGrabbed => "Failed to grab pointer"@,
                CaptureError::MouseNotDetached => "Failed to disassociate mouse from cursor"@,
            },
    {
        match self {
            CaptureError::DisplayUnavailable => "Failed to initialize X11 display",
            CaptureError::WindowCenterUnknown => "Failed to get window center",
            CaptureError::ScreenCenterUnknown => "Failed to get screen center",
            CaptureError::CursorNotHidden => "Failed to hide cursor",
            CaptureError::PointerNotGrabbed => "Failed to grab pointer",
            CaptureError::MouseNotDetached => "Failed to disassociate mouse from cursor",
        }
    }
}

/// What a failed call means for the script.
#[derive(Debug, Clone, Copy, PartialEq, Eq, Structural)]
pub enum OnFailure {
    /// The script goes on.
    Ignore,
    /// The script ends with this error.
    Abort(CaptureError),
    /// The cursor is shown again, then the script ends with this error.
    ShowAndAbort(CaptureError),
}

#[derive(Debug, Clone, Copy, PartialEq, Eq, Structural)]
pub struct ScriptStep {
    pub action: CursorAction,
    pub on_failure: OnFailure,
}

pub open spec fn step(action: CursorAction, on_failure: OnFailure) -> ScriptStep {
    ScriptStep { action, on_failure }
}

/// The calls that capture the cursor, in order.
pub open spec fn capture_script(platform: Platform) -> Seq<ScriptStep> {
    match platform {
        Platform::Macos => seq![
            step(CursorAction::UpdateCenter, OnFailure::Ignore),
            step(CursorAction::CenterCursor, OnFailure::Ignore),
            step(CursorAction::HideCursor, OnFailure::Abort(CaptureError::CursorNotHidden)),
            step(
                CursorAction::DetachMouse,
                OnFailure::ShowAndAbort(CaptureError::MouseNotDetached),
            ),
        ],
        Platform::Windows => seq![
            step(CursorAction::UpdateCenter, OnFailure::Abort(CaptureError::WindowCenterUnknown)),
            step(CursorAction::DisableAcceleration, OnFailure::Ignore),
            step(CursorAction::CenterCursor, OnFailure::Ignore),
            step(CursorAction::HideCursor, OnFailure::Ignore),
            step(CursorAction::ClipToWindow, OnFailure::Ignore),
        ],
        Platform::Linux => seq![
            step(CursorAction::InitDisplay, OnFailure::Abort(CaptureError::DisplayUnavailable)),
            step(CursorAction::UpdateCenter, OnFailure::Abort(CaptureError::ScreenCenterUnknown)),
            step(CursorAction::CenterCursor, OnFailure::Ignore),
            step(CursorAction::HideCursor, OnFailure::Abort(CaptureError::PointerNotGrabbed)),
        ],
        Platform::Unsupported => Seq::empty(),
    }
}

/// The calls that release the cursor, in order. None of them can fail the release.
pub open spec fn release_script(platform: Platform) -> Seq<CursorAction> {
    match platform {
        Platform::Macos => seq![
            CursorAction::AttachMouse,
            CursorAction::ShowCursor,
            CursorAction::CenterCursor,
        ],
        Platform::Windows => seq![
            CursorAction::RestoreAcceleration,
            CursorAction::ReleaseClip,
            CursorAction::ShowCursor,
            CursorAction::CenterCursor,
        ],
        Platform::Linux => seq![CursorAction::ShowCursor, CursorAction::CenterCursor],
        Platform::Unsupported => Seq::empty(),
    }
}

/// Where a session stands.
#[derive(Debug, Clone, Copy, PartialEq, Eq, Structural)]
pub enum Phase {
    Idle,
    /// The capture call with this index is under way.
    Capturing(usize),
    /// The cursor is being shown again after a failure.
    Undoing(CaptureError),
    /// The release call with this index is under way.
    Releasing(usize),
}

/// What to do next.
#[derive(Debug, Clone, Copy, PartialEq, Eq)]
pub enum Progress {
    Perform(CursorAction),
    Finished(Result<bool, CaptureError>),
}

/// The capture state of one process.
#[derive(Debug, Clone, Copy, PartialEq, Eq, Structural)]
pub struct CursorSession {
    pub platform: Platform,
    pub captured: bool,
    pub phase: Phase,
}

impl CursorSession {
    /// A running script points at one of its steps, and capturing runs only while
    /// the cursor is free, releasing only while it is captured.
    pub open spec fn wf(self) -> bool {
        match self.phase {
            Phase::Idle => true,
            Phase::Capturing(i) => i < capture_script(self.platform).len() && !self.captured,
            Phase::Undoing(_) => !self.captured,
            Phase::Releasing(i) => i < release_script(self.platform).len() && self.captured,
        }
    }

    /// What capturing starts with.
    pub open spec fn capture_begun(self) -> (CursorSession, Progress) {
        if self.captured {
            (self, Progress::Finished(Ok(true)))
        } else if capture_script(self.platform).len() == 0 {
            (self, Progress::Finished(Ok(false)))
        } else {
            (
                CursorSession { phase: Phase::Capturing(0), ..self },
                Progress::Perform(capture_script(self.platform)[0].action),
            )
        }
    }

    /// What releasing starts with.
    pub open spec fn release_begun(self) -> (CursorSession, Progress) {
        if !self.captured || release_script(self.platform).len() == 0 {
            (self, Progress::Finished(Ok(true)))
        } else {
            (
                CursorSession { phase: Phase::Releasing(0), ..self },
                Progress::Perform(release_script(self.platform)[0]),
            )
        }
    }

    /// What follows a capture step that succeeded or may fail.
    pub open spec fn capture_continued(self, done: nat) -> (CursorSession, Progress) {
        if done + 1 < capture_script(self.platform).len() {
            (
                CursorSession { phase: Phase::Capturing((done + 1) as usize), ..self },
                Progress::Perform(capture_script(self.platform)[done as int + 1].action),
            )
        } else {
            (
                CursorSession { captured: true, phase: Phase::Idle, ..self },
                Progress::Finished(Ok(true)),
            )
        }
    }

    /// What follows the report on the call under way.
    pub open spec fn reported(self, ok: bool) -> (CursorSession, Progress) {
        match self.phase {
            Phase::Idle => (self, Progress::Finished(Ok(self.captured))),
            Phase::Capturing(i) => if ok {
                self.capture_continued(i as nat)
            } else {
                match capture_script(self.platform)[i as int].on_failure {
                    OnFailure::Ignore => self.capture_continued(i as nat),
                    OnFailure::Abort(e) => (
                        CursorSession { phase: Phase::Idle, ..self },
                        Progress::Finished(Err(e)),
                    ),
                    OnFailure::ShowAndAbort(e) => (
                        CursorSession { phase: Phase::Undoing(e), ..self },
                        Progress::Perform(CursorAction::ShowCursor),
                    ),
                }
            },
            Phase::Undoing(e) => (
                CursorSession { phase: Phase::Idle, ..self },
                Progress::Finished(Err(e)),
            ),
            Phase::Releasing(i) => if i + 1 < release_script(self.platform).len() {
                (
                    CursorSession { phase: Phase::Releasing((i + 1) as usize), ..self },
                    Progress::Perform(release_script(self.platform)[i + 1]),
                )
            } else {
                (
                    CursorSession { captured: false, phase: Phase::Idle, ..self },
                    Progress::Finished(Ok(true)),
                )
            },
        }
    }

    /// The session after all reports of a list have come in, and the last answer.
    pub open spec fn run(self, last: Progress, reports: Seq<bool>) -> (CursorSession, Progress)
        decreases reports.len(),
    {
        if reports.len() == 0 || last is Finished {
            (self, last)
        } else {
            let next = self.reported(reports[0]);
            next.0.run(next.1, reports.drop_first())
        }
    }

    /// A session with a free cursor.
    pub fn new(platform: Platform) -> (session: CursorSession)
        ensures
            session == (CursorSession { platform, captured: false, phase: Phase::Idle }),
            session.wf(),
    {
        CursorSession { platform, captured: false, phase: Phase::Idle }
    }

    /// The call that was handed out last has been made; `ok` is how it went.
    pub fn report(&mut self, ok: bool) -> (next: Progress)
        requires
            old(self).wf(),
        ensures
            final(self).wf(),
            (*final(self), next) == old(self).reported(ok),
    {
        match self.phase {
            Phase::Idle => Progress::Finished(Ok(self.captured)),
            Phase::Capturing(i) => {
                if !ok {
                    if let Some(failed) = capture_step(self.platform, i) {
                        match failed.on_failure {
                            OnFailure::Ignore => {},
                            OnFailure::Abort(e) => {
                                self.phase = Phase::Idle;
                                return Progress::Finished(Err(e));
                            },
                            OnFailure::ShowAndAbort(e) => {
                                self.phase = Phase::Undoing(e);
                                return Progress::Perform(CursorAction::ShowCursor);
                            },
                        }
                    }
                }
                match capture_step(self.platform, i + 1) {
                    Some(following) => {
                        self.phase = Phase::Capturing(i + 1);
                        Progress::Perform(following.action)
                    },
                    None => {
                        self.phase = Phase::Idle;
                        self.captured = true;
                        Progress::Finished(Ok(true))
                    },
                }
            },
            Phase::Undoing(e) => {
                self.phase = Phase::Idle;
                Progress::Finished(Err(e))
            },
            Phase::Releasing(i) => {
                match release_step(self.platform, i + 1) {
                    Some(following) => {
                        self.phase = Phase::Releasing(i + 1);
                        Progress::Perform(following)
                    },
                    None => {
                        self.phase = Phase::Idle;
                        self.captured = false;
                        Progress::Finished(Ok(true))
                    },
                }
            },
        }
    }

}

/// Capture the mouse cursor (hide cursor and allow unlimited movement)
pub fn capture_cursor(session: &mut CursorSession) -> (next: Progress)
    requires
        old(session).wf(),
        old(session).phase is Idle,
    ensures
        final(session).wf(),
        (*final(session), next) == old(session).capture_begun(),
{
    if session.captured {
        return Progress::Finished(Ok(true));
    }
    match capture_step(session.platform, 0) {
        Some(first) => {
            session.phase = Phase::Capturing(0);
            Progress::Perform(first.action)
        },
        None => Progress::Finished(Ok(false)),
    }
}

/// Release the mouse cursor (show cursor and restore normal behavior)
pub fn release_cursor(session: &mut CursorSession) -> (next: Progress)
    requires
        old(session).wf(),
        old(session).phase is Idle,
    ensures
        final(session).wf(),
        (*final(session), next) == old(session).release_begun(),
{
    if !session.captured {
        return Progress::Finished(Ok(true));
    }
    match release_step(session.platform, 0) {
        Some(first) => {
            session.phase = Phase::Releasing(0);
            Progress::Perform(first)
        },
        None => Progress::Finished(Ok(true)),
    }
}

/// What recentering asks for after `done` calls, the last of which went as `ok` says:
/// a call, or nothing more, with the result. While the cursor is captured, the centre
/// is measured again and the cursor is put there. How measuring went does not matter;
/// how centring went is the result.
pub open spec fn recentering(session: CursorSession, done: nat, ok: bool) -> Result<
    CursorAction,
    bool,
> {
    if !session.captured || session.platform == Platform::Unsupported {
        Err(false)
    } else if done == 0 {
        Ok(CursorAction::UpdateCenter)
    } else if done == 1 {
        Ok(CursorAction::CenterCursor)
    } else {
        Err(ok)
    }
}

/// Recenter cursor without getting delta (useful after window resize): the first call
pub fn recenter_cursor(session: &CursorSession) -> (first: Result<CursorAction, bool>)
    ensures
        first == recentering(*session, 0, false),
{
    recenter_step(session, 0, false)
}

/// The call after `done` calls of a recentering, or its result
pub fn recenter_step(session: &CursorSession, done: usize, ok: bool) -> (next: Result<
    CursorAction,
    bool,
>)
    ensures
        next == recentering(*session, done as nat, ok),
{
    if !session.captured || session.platform == Platform::Unsupported {
        Err(false)
    } else if done == 0 {
        Ok(CursorAction::UpdateCenter)
    } else if done == 1 {
        Ok(CursorAction::CenterCursor)
    } else {
        Err(ok)
    }
}

/// Check if cursor is currently captured
pub fn is_cursor_captured(session: &CursorSession) -> (captured: bool)
    ensures
        captured == session.captured,
{
    session.captured
}

fn capture_step(platform: Platform, index: usize) -> (found: Option<ScriptStep>)
    ensures
        found == if index < capture_script(platform).len() {
            Some(capture_script(platform)[index as int])
        } else {
            None
        },
{
    let center = ScriptStep { action: CursorAction::CenterCursor, on_failure: OnFailure::Ignore };
    match platform {
        Platform::Macos => match index {
            0 => Some(
                ScriptStep { action: CursorAction::UpdateCenter, on_failure: OnFailure::Ignore },
            ),
            1 => Some(center),
            2 => Some(
                ScriptStep {
                    action: CursorAction::HideCursor,
                    on_failure: OnFailure::Abort(CaptureError::CursorNotHidden),
                },
            ),
            3 => Some(
                ScriptStep {
                    action: CursorAction::DetachMouse,
                    on_failure: OnFailure::ShowAndAbort(CaptureError::MouseNotDetached),
                },
            ),
            _ => None,
        },
        Platform::Windows => match index {
            0 => Some(
                ScriptStep {
                    action: CursorAction::UpdateCenter,
                    on_failure: OnFailure::Abort(CaptureError::WindowCenterUnknown),
                },
            ),
            1 => Some(
                ScriptStep {
                    action: CursorAction::DisableAcceleration,
                    on_failure: OnFailure::Ignore,
                },
            ),
            2 => Some(center),
            3 => Some(
                ScriptStep { action: CursorAction::HideCursor, on_failure: OnFailure::Ignore },
            ),
            4 => Some(
                ScriptStep { action: CursorAction::ClipToWindow, on_failure: OnFailure::Ignore },
            ),
            _ => None,
        },
        Platform::Linux => match index {
            0 => Some(
                ScriptStep {
                    action: CursorAction::InitDisplay,
                    on_failure: OnFailure::Abort(CaptureError::DisplayUnavailable),
                },
            ),
            1 => Some(
                ScriptStep {
                    action: CursorAction::UpdateCenter,
                    on_failure: OnFailure::Abort(CaptureError::ScreenCenterUnknown),
                },
            ),
            2 => Some(center),
            3 => Some(
                ScriptStep {
                    action: CursorAction::HideCursor,
                    on_failure: OnFailure::Abort(CaptureError::PointerNotGrabbed),
                },
            ),
            _ => None,
        },
        Platform::Unsupported => None,
    }
}

fn release_step(platform: Platform, index: usize) -> (found: Option<CursorAction>)
    ensures
        found == if index < release_script(platform).len() {
            Some(release_script(platform)[index as int])
        } else {
            None
        },
{
    match platform {
        Platform::Macos => match index {
            0 => Some(CursorAction::AttachMouse),
            1 => Some(CursorAction::ShowCursor),
            2 => Some(CursorAction::CenterCursor),
            _ => None,
        },
        Platform::Windows => match index {
            0 => Some(CursorAction::RestoreAcceleration),
            1 => Some(CursorAction::ReleaseClip),
            2 => Some(CursorAction::ShowCursor),
            3 => Some(CursorAction::CenterCursor),
            _ => None,
        },
        Platform::Linux => match index {
            0 => Some(CursorAction::ShowCursor),
            1 => Some(CursorAction::CenterCursor),
            _ => None,
        },
        Platform::Unsupported => None,
    }
}

/// Check if native input pipeline is available on this platform
pub fn is_native_input_available(platform: Platform) -> (available: bool)
    ensures
        available == (platform != Platform::Unsupported),
{
    match platform {
        Platform::Unsupported => false,
        _ => true,
    }
}

/// Get the platform name for debugging
pub fn get_input_platform(platform: Platform) -> (name: String)
    ensures
        name@ == match platform {
            Platform::Windows => "windows"@,
            Platform::Macos => "macos"@,
            Platform::Linux => "linux"@,
            Platform::Unsupported => "unsupported"@,
        },
{
    match platform {
        Platform::Windows => "windows".to_string(),
        Platform::Macos => "macos".to_string(),
        Platform::Linux => "linux".to_string(),
        Platform::Unsupported => "unsupported".to_string(),
    }
}

/// Whatever the system answers, a capture that has ended says the truth: it ends
/// well exactly when the cursor is captured, unless the platform has no capture.
pub proof fn capture_ends_truthfully(session: CursorSession, reports: Seq<bool>)
    requires
        session.phase is Idle,
        session.platform != Platform::Unsupported,
    ensures
        ({
            let begun = session.capture_begun();
            let ended = begun.0.run(begun.1, reports);
            ended.1 matches Progress::Finished(outcome) ==> {
                &&& ended.0.phase is Idle
                &&& ended.0.captured == (outcome == Ok::<bool, CaptureError>(true))
                &&& outcome is Err ==> !session.captured
            }
        }),
{
    let begun = session.capture_begun();
    if !session.captured {
        lemma_capture_run(begun.0, begun.1, reports);
    }
}

/// A capture under way, on the path through `run`.
spec fn capturing(session: CursorSession, last: Progress) -> bool {
    match last {
        Progress::Perform(_) => {
            &&& !session.captured
            &&& match session.phase {
                Phase::Capturing(i) => i < capture_script(session.platform).len(),
                Phase::Undoing(_) => true,
                _ => false,
            }
        },
        Progress::Finished(outcome) => {
            &&& session.phase is Idle
            &&& session.captured == (outcome == Ok::<bool, CaptureError>(true))
        },
    }
}

proof fn lemma_capture_run(session: CursorSession, last: Progress, reports: Seq<bool>)
    requires
        capturing(session, last),
    ensures
        ({
            let ended = session.run(last, reports);
            capturing(ended.0, ended.1)
        }),
    decreases reports.len(),
{
    if reports.len() > 0 && !(last is Finished) {
        let next = session.reported(reports[0]);
        lemma_capture_run(next.0, next.1, reports.drop_first());
    }
}

/// Capturing succeeds when every call succeeds, after exactly the calls of the
/// script.
pub proof fn capture_succeeds_on_success(session: CursorSession, reports: Seq<bool>)
    requires
        session.phase is Idle,
        !session.captured,
        session.platform != Platform::Unsupported,
        reports.len() == capture_script(session.platform).len(),
        forall|i: int| 0 <= i < reports.len() ==> reports[i],
    ensures
        ({
            let begun = session.capture_begun();
            begun.0.run(begun.1, reports) == (
                CursorSession { captured: true, ..session },
                Progress::Finished(Ok::<bool, CaptureError>(true)),
            )
        }),
{
    let begun = session.capture_begun();
    lemma_all_succeed(begun.0, 0, reports);
}

proof fn lemma_all_succeed(session: CursorSession, at: nat, reports: Seq<bool>)
    requires
        at < capture_script(session.platform).len(),
        session.phase == Phase::Capturing(at as usize),
        !session.captured,
        reports.len() + at == capture_script(session.platform).len(),
        forall|i: int| 0 <= i < reports.len() ==> reports[i],
    ensures
        session.run(Progress::Perform(capture_script(session.platform)[at as int].action), reports)
            == (
            CursorSession { captured: true, phase: Phase::Idle, ..session },
            Progress::Finished(Ok::<bool, CaptureError>(true)),
        ),
    decreases reports.len(),
{
    reveal_with_fuel(CursorSession::run, 2);
    let next = session.reported(reports[0]);
    let rest = reports.drop_first();
    assert(forall|i: int| 0 <= i < rest.len() ==> rest[i] == reports[i + 1]);
    if at + 1 < capture_script(session.platform).len() {
        lemma_all_succeed(next.0, at + 1, rest);
    } else {
        assert(rest.len() == 0);
    }
}

/// Releasing always ends well and leaves the cursor free, whatever the system
/// answers, after exactly the calls of the script.
pub proof fn release_always_frees(session: CursorSession, reports: Seq<bool>)
    requires
        session.phase is Idle,
        session.captured,
        session.platform != Platform::Unsupported,
        reports.len() == release_script(session.platform).len(),
    ensures
        ({
            let begun = session.release_begun();
            begun.0.run(begun.1, reports) == (
                CursorSession { captured: false, ..session },
                Progress::Finished(Ok::<bool, CaptureError>(true)),
            )
        }),
{
    let begun = session.release_begun();
    lemma_release_run(begun.0, 0, reports);
}

proof fn lemma_release_run(session: CursorSession, at: nat, reports: Seq<bool>)
    requires
        at < release_script(session.platform).len(),
        session.phase == Phase::Releasing(at as usize),
        session.captured,
        reports.len() + at == release_script(session.platform).len(),
    ensures
        session.run(Progress::Perform(release_script(session.platform)[at as int]), reports) == (
            CursorSession { captured: false, phase: Phase::Idle, ..session },
            Progress::Finished(Ok::<bool, CaptureError>(true)),
        ),
    decreases reports.len(),
{
    reveal_with_fuel(CursorSession::run, 2);
    let next = session.reported(reports[0]);
    let rest = reports.drop_first();
    if at + 1 < release_script(session.platform).len() {
        lemma_release_run(next.0, at + 1, rest);
    } else {
        assert(rest.len() == 0);
    }
}

/// On every platform that has a capture, the centre is stored before the cursor is
/// put there, so that movement is measured from where the cursor was put.
pub proof fn center_is_stored_first(platform: Platform)
    requires
        platform != Platform::Unsupported,
    ensures
        exists|i: int, j: int|
            0 <= i < j < capture_script(platform).len() && (#[trigger] capture_script(
                platform,
            )[i]).action == CursorAction::UpdateCenter && (#[trigger] capture_script(
                platform,
            )[j]).action == CursorAction::CenterCursor,
        forall|i: int|
            0 <= i < capture_script(platform).len() && (#[trigger] capture_script(
                platform,
            )[i]).action == CursorAction::UpdateCenter ==> forall|j: int|
                0 <= j < i ==> (#[trigger] capture_script(platform)[j]).action
                    != CursorAction::CenterCursor,
{
    let script = capture_script(platform);
    match platform {
        Platform::Macos => {
            assert(script[0].action == CursorAction::UpdateCenter);
            assert(script[1].action == CursorAction::CenterCursor);
        },
        Platform::Windows => {
            assert(script[0].action == CursorAction::UpdateCenter);
            assert(script[2].action == CursorAction::CenterCursor);
        },
        _ => {
            assert(script[1].action == CursorAction::UpdateCenter);
            assert(script[2].action == CursorAction::CenterCursor);
        },
    }
}

/// A captured cursor is recentred by measuring and then centring, whatever measuring
/// says, and the result is that of centring. A free one is left alone.
pub proof fn recentering_ends_as_centering_does(
    session: CursorSession,
    measured: bool,
    centered: bool,
)
    ensures
        session.captured && session.platform != Platform::Unsupported ==> {
            &&& recentering(session, 0, false) == Ok::<CursorAction, bool>(
                CursorAction::UpdateCenter,
            )
            &&& recentering(session, 1, measured) == Ok::<CursorAction, bool>(
                CursorAction::CenterCursor,
            )
            &&& recentering(session, 2, centered) == Err::<CursorAction, bool>(centered)
        },
        !session.captured || session.platform == Platform::Unsupported ==> recentering(
            session,
            0,
            false,
        ) == Err::<CursorAction, bool>(false),
{
}

/// A mouse that cannot be detached leaves no hidden cursor behind: showing it is
/// the next and last call before the error.
pub proof fn failed_detach_shows_the_cursor(session: CursorSession, shown: bool)
    requires
        session.wf(),
        session.platform == Platform::Macos,
        session.phase == Phase::Capturing(3),
    ensures
        ({
            let undo = session.reported(false);
            let end = undo.0.reported(shown);
            &&& undo.1 == Progress::Perform(CursorAction::ShowCursor)
            &&& end.1 == Progress::Finished(
                Err::<bool, CaptureError>(CaptureError::MouseNotDetached),
            )
            &&& !end.0.captured
        }),
{
}

/// On macOS the centre is stored, the cursor is put there and hidden, and the mouse is
/// detached from it. Only hiding and detaching must go well.
pub proof fn capturing_on_macos(session: CursorSession, stored: bool, centered: bool)
    requires
        session.platform == Platform::Macos,
        session.phase is Idle,
        !session.captured,
    ensures
        ({
            let first = session.capture_begun();
            let second = first.0.reported(stored);
            let third = second.0.reported(centered);
            let fourth = third.0.reported(true);
            &&& first.1 == Progress::Perform(CursorAction::UpdateCenter)
            &&& second.1 == Progress::Perform(CursorAction::CenterCursor)
            &&& third.1 == Progress::Perform(CursorAction::HideCursor)
            &&& third.0.reported(false) == (
                session,
                Progress::Finished(Err::<bool, CaptureError>(CaptureError::CursorNotHidden)),
            )
            &&& fourth.1 == Progress::Perform(CursorAction::DetachMouse)
            &&& fourth.0.reported(true) == (
                CursorSession { captured: true, ..session },
                Progress::Finished(Ok::<bool, CaptureError>(true)),
            )
            &&& fourth.0.reported(false).1 == Progress::Perform(CursorAction::ShowCursor)
            &&& fourth.0.reported(false).0.reported(stored) == (
                session,
                Progress::Finished(Err::<bool, CaptureError>(CaptureError::MouseNotDetached)),
            )
        }),
{
}

/// On Windows the centre is stored, acceleration is switched off, and the cursor is put
/// there, hidden and kept in the window. Only storing the centre must go well.
pub proof fn capturing_on_windows(
    session: CursorSession,
    slowed: bool,
    centered: bool,
    hidden: bool,
    clipped: bool,
)
    requires
        session.platform == Platform::Windows,
        session.phase is Idle,
        !session.captured,
    ensures
        ({
            let first = session.capture_begun();
            let second = first.0.reported(true);
            let third = second.0.reported(slowed);
            let fourth = third.0.reported(centered);
            let fifth = fourth.0.reported(hidden);
            &&& first.1 == Progress::Perform(CursorAction::UpdateCenter)
            &&& first.0.reported(false) == (
                session,
                Progress::Finished(Err::<bool, CaptureError>(CaptureError::WindowCenterUnknown)),
            )
            &&& second.1 == Progress::Perform(CursorAction::DisableAcceleration)
            &&& third.1 == Progress::Perform(CursorAction::CenterCursor)
            &&& fourth.1 == Progress::Perform(CursorAction::HideCursor)
            &&& fifth.1 == Progress::Perform(CursorAction::ClipToWindow)
            &&& fifth.0.reported(clipped) == (
                CursorSession { captured: true, ..session },
                Progress::Finished(Ok::<bool, CaptureError>(true)),
            )
        }),
{
}

/// On Linux the display is opened, the centre is stored, and the cursor is put there and
/// hidden. Only putting it there may fail.
pub proof fn capturing_on_linux(session: CursorSession, centered: bool)
    requires
        session.platform == Platform::Linux,
        session.phase is Idle,
        !session.captured,
    ensures
        ({
            let first = session.capture_begun();
            let second = first.0.reported(true);
            let third = second.0.reported(true);
            let fourth = third.0.reported(centered);
            &&& first.1 == Progress::Perform(CursorAction::InitDisplay)
            &&& first.0.reported(false) == (
                session,
                Progress::Finished(Err::<bool, CaptureError>(CaptureError::DisplayUnavailable)),
            )
            &&& second.1 == Progress::Perform(CursorAction::UpdateCenter)
            &&& second.0.reported(false) == (
                session,
                Progress::Finished(Err::<bool, CaptureError>(CaptureError::ScreenCenterUnknown)),
            )
            &&& third.1 == Progress::Perform(CursorAction::CenterCursor)
            &&& fourth.1 == Progress::Perform(CursorAction::HideCursor)
            &&& fourth.0.reported(false) == (
                session,
                Progress::Finished(Err::<bool, CaptureError>(CaptureError::PointerNotGrabbed)),
            )
            &&& fourth.0.reported(true) == (
                CursorSession { captured: true, ..session },
                Progress::Finished(Ok::<bool, CaptureError>(true)),
            )
        }),
{
}

/// Releasing undoes what capturing did, shows the cursor and puts it into the middle,
/// whatever the system answers.
pub proof fn releasing_shows_the_cursor(session: CursorSession, a: bool, b: bool, c: bool, d: bool)
    requires
        session.phase is Idle,
        session.captured,
    ensures
        ({
            let first = session.release_begun();
            let second = first.0.reported(a);
            let third = second.0.reported(b);
            let fourth = third.0.reported(c);
            let show = Progress::Perform(CursorAction::ShowCursor);
            let center = Progress::Perform(CursorAction::CenterCursor);
            let over = (
                CursorSession { captured: false, ..session },
                Progress::Finished(Ok::<bool, CaptureError>(true)),
            );
            match session.platform {
                Platform::Macos => first.1 == Progress::Perform(CursorAction::AttachMouse)
                    && second.1 == show && third.1 == center && fourth == over,
                Platform::Windows => first.1 == Progress::Perform(
                    CursorAction::RestoreAcceleration,
                ) && second.1 == Progress::Perform(CursorAction::ReleaseClip) && third.1 == show
                    && fourth.1 == center && fourth.0.reported(d) == over,
                Platform::Linux => first.1 == show && second.1 == center && third == over,
                Platform::Unsupported => first == (
                    session,
                    Progress::Finished(Ok::<bool, CaptureError>(true)),
                ),
            }
        }),
{
}

/// Capturing a captured cursor and releasing a free one change nothing and go well; where
/// there is no capture, capturing says so.
pub proof fn nothing_is_done_twice(session: CursorSession, ok: bool)
    ensures
        session.captured ==> session.capture_begun() == (
            session,
            Progress::Finished(Ok::<bool, CaptureError>(true)),
        ),
        !session.captured ==> session.release_begun() == (
            session,
            Progress::Finished(Ok::<bool, CaptureError>(true)),
        ),
        !session.captured && session.platform == Platform::Unsupported ==> session.capture_begun()
            == (session, Progress::Finished(Ok::<bool, CaptureError>(false))),
        session.phase is Idle ==> session.reported(ok) == (
            session,
            Progress::Finished(Ok::<bool, CaptureError>(session.captured)),
        ),
{
}

/// However many calls have been made, recentering a free cursor gives nothing, and after
/// two calls the last answer is the result.
pub proof fn recentering_takes_two_calls(session: CursorSession, done: nat, ok: bool)
    ensures
        !session.captured || session.platform == Platform::Unsupported ==> recentering(
            session,
            done,
            ok,
        ) == Err::<CursorAction, bool>(false),
        session.captured && session.platform != Platform::Unsupported ==> {
            &&& recentering(session, done, ok) is Ok <==> done < 2
            &&& done >= 2 ==> recentering(session, done, ok) == Err::<CursorAction, bool>(ok)
        },
{
}

} // verus!
