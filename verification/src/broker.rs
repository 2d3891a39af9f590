//! The broker's decisions: for each permission kind, the grant state
//! reported by a check and the outcome reported by a request, each a pure
//! function of what the platform layer observed.
//!
//! A check never fails: inability to determine the state collapses to
//! "not granted", and a platform without the capability's concept
//! collapses to "granted" (there is nothing to gate).  Only the requests
//! that open a settings pane can fail, and only because spawning the
//! OS process that opens the pane failed; that error is surfaced verbatim.

use vstd::prelude::*;

use crate::kind::PermissionKind;

verus! {

/// The media authorization status value that means "explicitly
/// authorized".  Every other status (not determined, denied, restricted)
/// counts as not granted.
pub const MEDIA_AUTHORIZED_STATUS: i32 = 3;

/// What the platform layer found when it gathered the evidence for the
/// full-disk-access heuristic.  The platform offers no direct query for
/// full disk access, so the broker infers it from whether OS-protected
/// probe directories under the user's home directory can be listed.
#[derive(Clone, Copy, PartialEq, Eq, Debug, Structural)]
pub enum FullDiskEvidence {
    /// The platform has no notion of full-disk access.
    Unsupported,
    /// The user's home directory could not be resolved, so no probe was
    /// possible.
    HomeUnresolved,
    /// Each probe directory under the home directory was tried; a field
    /// is `true` when listing that directory succeeded.
    Probed { stocks_container_listable: bool, browser_data_listable: bool },
}

/// The grant state decided from a boolean trust query: `None` means the
/// platform has no such query (granted by convention), otherwise the
/// platform's own answer.
pub open spec fn trust_granted(answer: Option<bool>) -> bool {
    match answer {
        None => true,
        Some(trusted) => trusted,
    }
}

/// The grant state decided from the full-disk-access evidence: granted by
/// convention where the concept is absent, not granted when the home
/// directory is unknown, and otherwise granted exactly when at least one
/// probe directory was listable.
pub open spec fn full_disk_granted(evidence: FullDiskEvidence) -> bool {
    match evidence {
        FullDiskEvidence::Unsupported => true,
        FullDiskEvidence::HomeUnresolved => false,
        FullDiskEvidence::Probed { stocks_container_listable, browser_data_listable } =>
            stocks_container_listable || browser_data_listable,
    }
}

/// The grant state decided from a media authorization status: `None`
/// means the platform has no such status (granted by convention);
/// otherwise exactly the "explicitly authorized" status counts.
pub open spec fn media_granted(status: Option<i32>) -> bool {
    match status {
        None => true,
        Some(code) => code == MEDIA_AUTHORIZED_STATUS,
    }
}

/// The per-kind check table: `report` is a grant state that a check of
/// `kind` may report given the observations for that kind.
pub open spec fn check_reports(
    kind: PermissionKind,
    trust: Option<bool>,
    evidence: FullDiskEvidence,
    status: Option<i32>,
    report: bool,
) -> bool {
    match kind {
        PermissionKind::Accessibility => report == trust_granted(trust),
        PermissionKind::FullDiskAccess => report == full_disk_granted(evidence),
        PermissionKind::ScreenRecording => report == trust_granted(trust),
        PermissionKind::Microphone => report == media_granted(status),
        PermissionKind::Audio => report == media_granted(status),
    }
}

/// The outcome of a pane-opening request, from the outcome of the spawn
/// that the platform layer attempted: where nothing was attempted (no
/// pane exists on this platform) the request succeeds, and otherwise the
/// spawn's own outcome is surfaced unchanged.
pub open spec fn pane_request_outcome(spawn: Option<Result<(), String>>) -> Result<(), String> {
    match spawn {
        None => Ok(()),
        Some(outcome) => outcome,
    }
}

/// Whether this process is trusted for accessibility, from the platform's
/// trust query: `None` where the platform has no such query.
pub fn check_accessibility_permission(trust: Option<bool>) -> (granted: bool)
    ensures
        granted == trust_granted(trust),
        trust is None ==> granted,
{
    match trust {
        None => true,
        Some(trusted) => trusted,
    }
}

/// Whether this process may record the screen, from the platform's
/// screen-capture preflight query: `None` where the platform has no such
/// query.
pub fn check_screen_recording_permission(preflight: Option<bool>) -> (granted: bool)
    ensures
        granted == trust_granted(preflight),
        preflight is None ==> granted,
{
    match preflight {
        None => true,
        Some(allowed) => allowed,
    }
}

/// Whether this process has full disk access, inferred from the probe
/// evidence.  This is a heuristic, not a ground truth: the platform has
/// no direct query, and a changed directory layout can make it report a
/// false negative.
pub fn check_full_disk_access_permission(evidence: FullDiskEvidence) -> (granted: bool)
    ensures
        granted == full_disk_granted(evidence),
        evidence is Unsupported ==> granted,
        evidence is HomeUnresolved ==> !granted,
        evidence matches FullDiskEvidence::Probed {
            stocks_container_listable,
            browser_data_listable,
        } ==> (granted <==> stocks_container_listable || browser_data_listable),
{
    match evidence {
        FullDiskEvidence::Unsupported => true,
        FullDiskEvidence::HomeUnresolved => false,
        FullDiskEvidence::Probed { stocks_container_listable, browser_data_listable } =>
            stocks_container_listable || browser_data_listable,
    }
}

/// Whether this process may capture from the microphone, from the
/// platform's media authorization status for the microphone's media
/// type: `None` where the platform has no such status.
pub fn check_microphone_permission(status: Option<i32>) -> (granted: bool)
    ensures
        granted == media_granted(status),
        status is None ==> granted,
        status matches Some(code) ==> (granted <==> code == MEDIA_AUTHORIZED_STATUS),
{
    match status {
        None => true,
        Some(code) => code == MEDIA_AUTHORIZED_STATUS,
    }
}

/// Whether this process may capture audio, from the platform's media
/// authorization status for the audio media type: `None` where the
/// platform has no such status.
pub fn check_audio_permission(status: Option<i32>) -> (granted: bool)
    ensures
        granted == media_granted(status),
        status is None ==> granted,
        status matches Some(code) ==> (granted <==> code == MEDIA_AUTHORIZED_STATUS),
{
    match status {
        None => true,
        Some(code) => code == MEDIA_AUTHORIZED_STATUS,
    }
}

/// The outcome reported for a full-disk-access request, from the outcome
/// of spawning the process that opens the full-disk settings pane:
/// success where no pane exists on this platform, and otherwise the
/// spawn error verbatim.
pub fn request_full_disk_access_permission(spawn: Option<Result<(), String>>) -> (outcome: Result<
    (),
    String,
>)
    ensures
        outcome == pane_request_outcome(spawn),
        spawn is None ==> outcome is Ok,
        spawn matches Some(Err(message)) ==> outcome == Err::<(), String>(message),
{
    match spawn {
        None => Ok(()),
        Some(result) => result,
    }
}

/// The outcome reported for a microphone request, from the outcome of
/// spawning the process that opens the microphone settings pane: success
/// where no pane exists on this platform, and otherwise the spawn error
/// verbatim.
pub fn request_microphone_permission(spawn: Option<Result<(), String>>) -> (outcome: Result<
    (),
    String,
>)
    ensures
        outcome == pane_request_outcome(spawn),
        spawn is None ==> outcome is Ok,
        spawn matches Some(Err(message)) ==> outcome == Err::<(), String>(message),
{
    match spawn {
        None => Ok(()),
        Some(result) => result,
    }
}

/// The outcome reported for an audio-capture request, from the outcome of
/// spawning the process that opens the audio settings pane: success where
/// no pane exists on this platform, and otherwise the spawn error
/// verbatim.
pub fn request_audio_permission(spawn: Option<Result<(), String>>) -> (outcome: Result<
    (),
    String,
>)
    ensures
        outcome == pane_request_outcome(spawn),
        spawn is None ==> outcome is Ok,
        spawn matches Some(Err(message)) ==> outcome == Err::<(), String>(message),
{
    match spawn {
        None => Ok(()),
        Some(result) => result,
    }
}

} // verus!
