//! Properties that hold across the broker's operations.

use vstd::prelude::*;

use crate::broker::FullDiskEvidence;
use crate::broker::check_reports;
use crate::broker::pane_request_outcome;
use crate::kind::PermissionKind;
use crate::kind::audio_pane_uri;
use crate::kind::full_disk_pane_uri;
use crate::kind::microphone_pane_uri;
use crate::kind::pane_uri_of;
use crate::kind::strategy_of;

verus! {

/// Checking is a pure query: for every permission kind, the grant state a
/// check reports is determined by the platform observation alone, so two
/// checks in immediate succession that see the same observation report
/// the same grant state.
pub proof fn lemma_check_pure(
    kind: PermissionKind,
    trust: Option<bool>,
    evidence: FullDiskEvidence,
    status: Option<i32>,
    first: bool,
    second: bool,
)
    requires
        check_reports(kind, trust, evidence, status, first),
        check_reports(kind, trust, evidence, status, second),
    ensures
        first == second,
{
}

/// On a platform without these privacy concepts every check reports the
/// permission as granted — and nothing else — and every pane-opening
/// request succeeds.  (The two prompt-based requests return no outcome at
/// all, so they cannot fail anywhere.)
pub proof fn lemma_unsupported_platform_grants(kind: PermissionKind)
    ensures
        check_reports(kind, None, FullDiskEvidence::Unsupported, None, true),
        !check_reports(kind, None, FullDiskEvidence::Unsupported, None, false),
        pane_request_outcome(None) == Ok::<(), String>(()),
{
}

/// A kind is requested by opening a settings pane exactly when it has a
/// settings-pane URI; the other kinds go through the native prompt.
pub proof fn lemma_strategy_has_uri(kind: PermissionKind)
    ensures
        strategy_of(kind) is OpenSettingsPane <==> pane_uri_of(kind) is Some,
        strategy_of(kind) is NativePrompt <==> pane_uri_of(kind) is None,
{
}

/// The three pane-opening kinds each use their own settings-pane URI: no
/// two of them open the same pane.
pub proof fn lemma_pane_uris_distinct()
    ensures
        full_disk_pane_uri() != microphone_pane_uri(),
        full_disk_pane_uri() != audio_pane_uri(),
        microphone_pane_uri() != audio_pane_uri(),
{
    reveal_strlit("x-apple.systempreferences:com.apple.preference.security?Privacy_AllFiles");
    reveal_strlit("x-apple.systempreferences:com.apple.preference.security?Privacy_Microphone");
    reveal_strlit("x-apple.systempreferences:com.apple.preference.security?Privacy_AudioRecording");
    assert(full_disk_pane_uri().len() != microphone_pane_uri().len());
    assert(full_disk_pane_uri().len() != audio_pane_uri().len());
    assert(microphone_pane_uri().len() != audio_pane_uri().len());
}

} // verus!
