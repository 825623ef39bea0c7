use walkup_scan::objects::{ChosenScanSettings, PreScanPage, ScanStatus, WalkupScanToCompSettings};
use walkup_scan::orchestrator::{ScanAction, ScanInput, ScanOrchestrator};

const TARGET: &str = "550e8400-e29b-41d4-a716-446655440000";

fn orchestrator_at_page_polling() -> ScanOrchestrator {
    let mut orchestrator = ScanOrchestrator::new(TARGET.to_string());
    assert!(matches!(orchestrator.step(ScanInput::Triggered), ScanAction::FetchScanEvent));
    let action = orchestrator.step(ScanInput::ScanEvent { event_type: "ScanRequested".to_string() });
    assert!(matches!(action, ScanAction::FetchDestination));
    let action = orchestrator.step(ScanInput::Destination {
        settings: Some(WalkupScanToCompSettings {
            settings: ChosenScanSettings { scan_plex_mode: "Simplex".to_string() },
            shortcut: "SaveDocument1".to_string(),
        }),
    });
    assert!(matches!(action, ScanAction::FetchStatus));
    let action = orchestrator.step(ScanInput::Status {
        status: ScanStatus { scanner_status: "Idle".to_string(), adf_state: "Loaded".to_string() },
    });
    match action {
        ScanAction::SubmitJob { settings } => {
            assert_eq!(settings.input_source, "Adf");
            assert_eq!(settings.format, "Jpeg");
            assert_eq!(settings.content_type, "Document");
        }
        _ => panic!("expected a job submission"),
    }
    let action = orchestrator.step(ScanInput::JobCreated { location: "/Jobs/JobList/27".to_string() });
    match action {
        ScanAction::PollJob { location } => assert_eq!(location, "/Jobs/JobList/27"),
        _ => panic!("expected a first poll"),
    }
    orchestrator
}

fn page(state: &str) -> PreScanPage {
    PreScanPage {
        number: 1,
        state: state.to_string(),
        binary_url: "/Scan/Jobs/27/Pages/1".to_string(),
        image_orientation: "Normal".to_string(),
    }
}

#[test]
fn two_preparing_polls_then_download_and_delivery_reach_complete() {
    let mut orchestrator = orchestrator_at_page_polling();

    // First poll: the page is still being prepared - sleep, then poll again.
    let action = orchestrator.step(ScanInput::JobState { pages: vec![page("PreparingScan")] });
    assert!(matches!(action, ScanAction::SleepThenPoll { .. }));

    // Second poll: still preparing.
    let action = orchestrator.step(ScanInput::JobState { pages: vec![page("PreparingScan")] });
    assert!(matches!(action, ScanAction::SleepThenPoll { .. }));

    // Third poll: ready - download exactly once.
    let action = orchestrator.step(ScanInput::JobState { pages: vec![page("ReadyToUpload")] });
    match action {
        ScanAction::DownloadPage { uri } => assert_eq!(uri, "/Scan/Jobs/27/Pages/1"),
        _ => panic!("expected a download"),
    }

    let action = orchestrator.step(ScanInput::PageDownloaded);
    assert!(matches!(action, ScanAction::Deliver));
    let action = orchestrator.step(ScanInput::Delivered);
    assert!(matches!(action, ScanAction::DiscardArtifact));
    assert!(orchestrator.is_settled());
}

#[test]
fn an_empty_page_list_completes_without_download_or_delivery() {
    let mut orchestrator = orchestrator_at_page_polling();
    let action = orchestrator.step(ScanInput::JobState { pages: vec![] });
    assert!(matches!(action, ScanAction::NoAction));
    assert!(orchestrator.is_settled());
    // Nothing further is asked of the driver.
    let action = orchestrator.step(ScanInput::PageDownloaded);
    assert!(matches!(action, ScanAction::NoAction));
}

#[test]
fn scan_pages_complete_completes_without_submitting_a_job() {
    let mut orchestrator = ScanOrchestrator::new(TARGET.to_string());
    assert!(matches!(orchestrator.step(ScanInput::Triggered), ScanAction::FetchScanEvent));
    let action = orchestrator.step(ScanInput::ScanEvent { event_type: "ScanPagesComplete".to_string() });
    assert!(matches!(action, ScanAction::NoAction));
    assert!(orchestrator.is_settled());
    // Even a stray status reply cannot lead to a submission any more.
    let action = orchestrator.step(ScanInput::Status {
        status: ScanStatus { scanner_status: "Idle".to_string(), adf_state: "Loaded".to_string() },
    });
    assert!(matches!(action, ScanAction::NoAction));
}

#[test]
fn an_unexpected_event_type_aborts_the_attempt() {
    let mut orchestrator = ScanOrchestrator::new(TARGET.to_string());
    orchestrator.step(ScanInput::Triggered);
    let action = orchestrator.step(ScanInput::ScanEvent { event_type: "ScanCancelled".to_string() });
    assert!(matches!(action, ScanAction::NoAction));
    assert!(orchestrator.is_settled());
}

#[test]
fn a_destination_without_a_preset_aborts_the_attempt() {
    let mut orchestrator = ScanOrchestrator::new(TARGET.to_string());
    orchestrator.step(ScanInput::Triggered);
    orchestrator.step(ScanInput::ScanEvent { event_type: "ScanRequested".to_string() });
    let action = orchestrator.step(ScanInput::Destination { settings: None });
    assert!(matches!(action, ScanAction::NoAction));
    assert!(orchestrator.is_settled());
}

#[test]
fn an_unknown_feeder_state_aborts_only_this_attempt() {
    let mut orchestrator = ScanOrchestrator::new(TARGET.to_string());
    orchestrator.step(ScanInput::Triggered);
    orchestrator.step(ScanInput::ScanEvent { event_type: "ScanRequested".to_string() });
    orchestrator.step(ScanInput::Destination {
        settings: Some(WalkupScanToCompSettings {
            settings: ChosenScanSettings { scan_plex_mode: "Simplex".to_string() },
            shortcut: "SaveDocument1".to_string(),
        }),
    });
    let action = orchestrator.step(ScanInput::Status {
        status: ScanStatus { scanner_status: "Idle".to_string(), adf_state: "Jammed".to_string() },
    });
    assert!(matches!(action, ScanAction::NoAction));
    assert!(orchestrator.is_settled());
}

#[test]
fn a_failed_call_aborts_the_attempt() {
    let mut orchestrator = ScanOrchestrator::new(TARGET.to_string());
    orchestrator.step(ScanInput::Triggered);
    let action = orchestrator.step(ScanInput::CallFailed);
    assert!(matches!(action, ScanAction::NoAction));
    assert!(orchestrator.is_settled());
}

#[test]
fn a_page_in_another_state_is_polled_again_without_sleeping() {
    let mut orchestrator = orchestrator_at_page_polling();
    let action = orchestrator.step(ScanInput::JobState { pages: vec![page("UploadCompleted")] });
    assert!(matches!(action, ScanAction::PollJob { .. }));
    assert!(!orchestrator.is_settled());
}

#[test]
fn the_orchestrator_keeps_its_target() {
    let orchestrator = ScanOrchestrator::new(TARGET.to_string());
    assert_eq!(orchestrator.target(), TARGET);
}
