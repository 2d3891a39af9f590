use macos_permissions::broker::check_accessibility_permission;
use macos_permissions::broker::check_audio_permission;
use macos_permissions::broker::check_full_disk_access_permission;
use macos_permissions::broker::check_microphone_permission;
use macos_permissions::broker::check_screen_recording_permission;
use macos_permissions::broker::request_audio_permission;
use macos_permissions::broker::request_full_disk_access_permission;
use macos_permissions::broker::request_microphone_permission;
use macos_permissions::broker::FullDiskEvidence;
use macos_permissions::broker::MEDIA_AUTHORIZED_STATUS;
use macos_permissions::kind::full_disk_probe_directories;
use macos_permissions::kind::media_type_identifier;
use macos_permissions::kind::request_strategy;
use macos_permissions::kind::settings_pane_uri;
use macos_permissions::kind::PermissionKind;
use macos_permissions::kind::RequestStrategy;

#[test]
fn fallback_platform_grants_every_check() {
    assert!(check_accessibility_permission(None));
    assert!(check_screen_recording_permission(None));
    assert!(check_full_disk_access_permission(FullDiskEvidence::Unsupported));
    assert!(check_microphone_permission(None));
    assert!(check_audio_permission(None));
}

#[test]
fn fallback_platform_requests_succeed() {
    assert_eq!(request_full_disk_access_permission(None), Ok(()));
    assert_eq!(request_microphone_permission(None), Ok(()));
    assert_eq!(request_audio_permission(None), Ok(()));
}

#[test]
fn accessibility_follows_trust_answer() {
    assert!(check_accessibility_permission(Some(true)));
    assert!(!check_accessibility_permission(Some(false)));
}

#[test]
fn screen_recording_follows_preflight_answer() {
    assert!(check_screen_recording_permission(Some(true)));
    assert!(!check_screen_recording_permission(Some(false)));
}

#[test]
fn full_disk_access_denied_without_home_directory() {
    assert!(!check_full_disk_access_permission(FullDiskEvidence::HomeUnresolved));
}

#[test]
fn full_disk_access_denied_when_neither_probe_listable() {
    let evidence = FullDiskEvidence::Probed {
        stocks_container_listable: false,
        browser_data_listable: false,
    };
    assert!(!check_full_disk_access_permission(evidence));
}

#[test]
fn full_disk_access_granted_by_browser_data_probe_alone() {
    let evidence = FullDiskEvidence::Probed {
        stocks_container_listable: false,
        browser_data_listable: true,
    };
    assert!(check_full_disk_access_permission(evidence));
}

#[test]
fn full_disk_access_granted_by_container_probe_alone() {
    let evidence = FullDiskEvidence::Probed {
        stocks_container_listable: true,
        browser_data_listable: false,
    };
    assert!(check_full_disk_access_permission(evidence));
}

#[test]
fn full_disk_access_granted_when_both_probes_listable() {
    let evidence = FullDiskEvidence::Probed {
        stocks_container_listable: true,
        browser_data_listable: true,
    };
    assert!(check_full_disk_access_permission(evidence));
}

#[test]
fn microphone_granted_only_when_authorized() {
    assert!(!check_microphone_permission(Some(0))); // not determined
    assert!(!check_microphone_permission(Some(1))); // restricted
    assert!(!check_microphone_permission(Some(2))); // denied
    assert!(check_microphone_permission(Some(MEDIA_AUTHORIZED_STATUS)));
    assert!(!check_microphone_permission(Some(4)));
    assert!(!check_microphone_permission(Some(-1)));
}

#[test]
fn audio_granted_only_when_authorized() {
    assert!(!check_audio_permission(Some(0)));
    assert!(!check_audio_permission(Some(1)));
    assert!(!check_audio_permission(Some(2)));
    assert!(check_audio_permission(Some(MEDIA_AUTHORIZED_STATUS)));
    assert!(!check_audio_permission(Some(4)));
}

#[test]
fn pane_requests_surface_spawn_errors_verbatim() {
    let message = "open: command not found".to_string();
    assert_eq!(
        request_full_disk_access_permission(Some(Err(message.clone()))),
        Err(message.clone())
    );
    assert_eq!(
        request_microphone_permission(Some(Err(message.clone()))),
        Err(message.clone())
    );
    assert_eq!(request_audio_permission(Some(Err(message.clone()))), Err(message));
}

#[test]
fn pane_requests_pass_successful_spawns_through() {
    assert_eq!(request_full_disk_access_permission(Some(Ok(()))), Ok(()));
    assert_eq!(request_microphone_permission(Some(Ok(()))), Ok(()));
    assert_eq!(request_audio_permission(Some(Ok(()))), Ok(()));
}

#[test]
fn checks_are_pure_queries() {
    assert_eq!(
        check_accessibility_permission(Some(true)),
        check_accessibility_permission(Some(true))
    );
    let evidence = FullDiskEvidence::Probed {
        stocks_container_listable: true,
        browser_data_listable: false,
    };
    assert_eq!(
        check_full_disk_access_permission(evidence),
        check_full_disk_access_permission(evidence)
    );
    assert_eq!(check_microphone_permission(Some(2)), check_microphone_permission(Some(2)));
}

#[test]
fn settings_pane_uris_are_fixed_and_kind_specific() {
    assert_eq!(
        settings_pane_uri(PermissionKind::FullDiskAccess),
        Some("x-apple.systempreferences:com.apple.preference.security?Privacy_AllFiles")
    );
    assert_eq!(
        settings_pane_uri(PermissionKind::Microphone),
        Some("x-apple.systempreferences:com.apple.preference.security?Privacy_Microphone")
    );
    assert_eq!(
        settings_pane_uri(PermissionKind::Audio),
        Some("x-apple.systempreferences:com.apple.preference.security?Privacy_AudioRecording")
    );
    assert_eq!(settings_pane_uri(PermissionKind::Accessibility), None);
    assert_eq!(settings_pane_uri(PermissionKind::ScreenRecording), None);
}

#[test]
fn settings_pane_uris_are_pairwise_distinct() {
    let full_disk = settings_pane_uri(PermissionKind::FullDiskAccess).unwrap();
    let microphone = settings_pane_uri(PermissionKind::Microphone).unwrap();
    let audio = settings_pane_uri(PermissionKind::Audio).unwrap();
    assert_ne!(full_disk, microphone);
    assert_ne!(full_disk, audio);
    assert_ne!(microphone, audio);
}

#[test]
fn request_strategy_matches_pane_availability() {
    assert_eq!(request_strategy(PermissionKind::Accessibility), RequestStrategy::NativePrompt);
    assert_eq!(request_strategy(PermissionKind::ScreenRecording), RequestStrategy::NativePrompt);
    assert_eq!(
        request_strategy(PermissionKind::FullDiskAccess),
        RequestStrategy::OpenSettingsPane
    );
    assert_eq!(request_strategy(PermissionKind::Microphone), RequestStrategy::OpenSettingsPane);
    assert_eq!(request_strategy(PermissionKind::Audio), RequestStrategy::OpenSettingsPane);
}

#[test]
fn prompting_kinds_have_no_pane_and_pane_kinds_have_one() {
    let kinds = [
        PermissionKind::Accessibility,
        PermissionKind::FullDiskAccess,
        PermissionKind::ScreenRecording,
        PermissionKind::Microphone,
        PermissionKind::Audio,
    ];
    for kind in kinds {
        let has_pane = settings_pane_uri(kind).is_some();
        let opens_pane = request_strategy(kind) == RequestStrategy::OpenSettingsPane;
        assert_eq!(has_pane, opens_pane);
    }
}

#[test]
fn media_type_codes_are_fixed() {
    assert_eq!(media_type_identifier(PermissionKind::Microphone), Some("soun"));
    assert_eq!(media_type_identifier(PermissionKind::Audio), Some("soun"));
    assert_eq!(media_type_identifier(PermissionKind::Accessibility), None);
    assert_eq!(media_type_identifier(PermissionKind::FullDiskAccess), None);
    assert_eq!(media_type_identifier(PermissionKind::ScreenRecording), None);
}

#[test]
fn probe_directories_are_the_fixed_pair() {
    let dirs = full_disk_probe_directories();
    assert_eq!(dirs.len(), 2);
    assert_eq!(dirs[0], "Library/Containers/com.apple.stocks");
    assert_eq!(dirs[1], "Library/Safari");
}
