//! The closed set of permission kinds and the per-kind strategy table:
//! which kinds are requested through a native consent prompt, which by
//! opening a privacy-settings pane, and the fixed platform identifiers
//! (settings-pane URIs, media type codes, probe directories) each kind uses.

use vstd::prelude::*;

verus! {

/// One of the privacy capabilities the broker answers for.  The set is
/// closed: it is exactly what the host shell asks about.
#[derive(Clone, Copy, PartialEq, Eq, Debug, Structural)]
pub enum PermissionKind {
    Accessibility,
    FullDiskAccess,
    ScreenRecording,
    Microphone,
    Audio,
}

/// How a request for a permission is carried out on the primary platform.
#[derive(Clone, Copy, PartialEq, Eq, Debug, Structural)]
pub enum RequestStrategy {
    /// The platform offers a programmatic consent dialog; the platform
    /// layer triggers it.
    NativePrompt,
    /// No programmatic prompt exists; the platform layer opens the
    /// privacy-settings pane named by [`settings_pane_uri`].
    OpenSettingsPane,
}

/// The settings-pane URI for the full-disk-access capability.
pub open spec fn full_disk_pane_uri() -> Seq<char> {
    "x-apple.systempreferences:com.apple.preference.security?Privacy_AllFiles"@
}

/// The settings-pane URI for the microphone capability.
pub open spec fn microphone_pane_uri() -> Seq<char> {
    "x-apple.systempreferences:com.apple.preference.security?Privacy_Microphone"@
}

/// The settings-pane URI for the audio-capture capability.
pub open spec fn audio_pane_uri() -> Seq<char> {
    "x-apple.systempreferences:com.apple.preference.security?Privacy_AudioRecording"@
}

/// The settings-pane URI a kind is requested through, if any: the three
/// pane-opening kinds each have a fixed, distinct URI; the two prompting
/// kinds have none.
pub open spec fn pane_uri_of(kind: PermissionKind) -> Option<Seq<char>> {
    match kind {
        PermissionKind::Accessibility => None,
        PermissionKind::FullDiskAccess => Some(full_disk_pane_uri()),
        PermissionKind::ScreenRecording => None,
        PermissionKind::Microphone => Some(microphone_pane_uri()),
        PermissionKind::Audio => Some(audio_pane_uri()),
    }
}

/// The strategy a request for a kind follows on the primary platform.
pub open spec fn strategy_of(kind: PermissionKind) -> RequestStrategy {
    match kind {
        PermissionKind::Accessibility => RequestStrategy::NativePrompt,
        PermissionKind::FullDiskAccess => RequestStrategy::OpenSettingsPane,
        PermissionKind::ScreenRecording => RequestStrategy::NativePrompt,
        PermissionKind::Microphone => RequestStrategy::OpenSettingsPane,
        PermissionKind::Audio => RequestStrategy::OpenSettingsPane,
    }
}

/// The path, relative to the user's home directory, of the sandboxed
/// system-app container directory probed by the full-disk-access
/// heuristic.
pub open spec fn stocks_container_dir() -> Seq<char> {
    "Library/Containers/com.apple.stocks"@
}

/// The path, relative to the user's home directory, of the browser data
/// directory probed by the full-disk-access heuristic.
pub open spec fn browser_data_dir() -> Seq<char> {
    "Library/Safari"@
}

/// The four-character media type code whose authorization status the
/// microphone check queries: the platform's audio media-type constant,
/// since a microphone grant is an audio-capture grant.
pub open spec fn microphone_media_type() -> Seq<char> {
    "soun"@
}

/// The four-character media type code whose authorization status the
/// audio-capture check queries: the platform's audio media-type constant.
pub open spec fn audio_media_type() -> Seq<char> {
    "soun"@
}

/// The media type code whose authorization status a check of `kind`
/// queries, or `None` for the kinds that are not media capabilities.
pub open spec fn media_type_of(kind: PermissionKind) -> Option<Seq<char>> {
    match kind {
        PermissionKind::Accessibility => None,
        PermissionKind::FullDiskAccess => None,
        PermissionKind::ScreenRecording => None,
        PermissionKind::Microphone => Some(microphone_media_type()),
        PermissionKind::Audio => Some(audio_media_type()),
    }
}

/// The view of an optional string slice, for stating contracts over it.
pub open spec fn opt_str_view(s: Option<&str>) -> Option<Seq<char>> {
    match s {
        None => None,
        Some(u) => Some(u@),
    }
}

/// The fixed privacy-settings URI a request for `kind` opens, or `None`
/// for the kinds that are requested through a native prompt instead.
pub fn settings_pane_uri(kind: PermissionKind) -> (uri: Option<&'static str>)
    ensures
        opt_str_view(uri) == pane_uri_of(kind),
{
    match kind {
        PermissionKind::Accessibility => None,
        PermissionKind::FullDiskAccess => Some(
            "x-apple.systempreferences:com.apple.preference.security?Privacy_AllFiles",
        ),
        PermissionKind::ScreenRecording => None,
        PermissionKind::Microphone => Some(
            "x-apple.systempreferences:com.apple.preference.security?Privacy_Microphone",
        ),
        PermissionKind::Audio => Some(
            "x-apple.systempreferences:com.apple.preference.security?Privacy_AudioRecording",
        ),
    }
}

/// How a request for `kind` is carried out on the primary platform:
/// accessibility and screen recording go through the platform's native
/// consent prompt; the other kinds open a settings pane.
pub fn request_strategy(kind: PermissionKind) -> (strategy: RequestStrategy)
    ensures
        strategy == strategy_of(kind),
{
    match kind {
        PermissionKind::Accessibility => RequestStrategy::NativePrompt,
        PermissionKind::FullDiskAccess => RequestStrategy::OpenSettingsPane,
        PermissionKind::ScreenRecording => RequestStrategy::NativePrompt,
        PermissionKind::Microphone => RequestStrategy::OpenSettingsPane,
        PermissionKind::Audio => RequestStrategy::OpenSettingsPane,
    }
}

/// The two probe directories of the full-disk-access heuristic, as paths
/// relative to the user's home directory.  The platform layer tries to
/// list each of them; the broker infers full disk access when at least
/// one listing succeeds.  The fixed pair is an approximation inherited
/// from the lack of any direct query: an OS release that moves either
/// directory can make the heuristic report a false negative.
pub fn full_disk_probe_directories() -> (dirs: Vec<&'static str>)
    ensures
        dirs@.len() == 2,
        dirs@[0]@ == stocks_container_dir(),
        dirs@[1]@ == browser_data_dir(),
{
    let mut dirs: Vec<&'static str> = Vec::new();
    dirs.push("Library/Containers/com.apple.stocks");
    dirs.push("Library/Safari");
    dirs
}

/// The media type code whose authorization status a check of `kind`
/// queries, or `None` for the kinds that are not media capabilities.
pub fn media_type_identifier(kind: PermissionKind) -> (code: Option<&'static str>)
    ensures
        opt_str_view(code) == media_type_of(kind),
{
    match kind {
        PermissionKind::Accessibility => None,
        PermissionKind::FullDiskAccess => None,
        PermissionKind::ScreenRecording => None,
        PermissionKind::Microphone => Some("soun"),
        PermissionKind::Audio => Some("soun"),
    }
}

} // verus!
