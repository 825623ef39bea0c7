use walkup_scan::helpers::create_job;
use walkup_scan::objects::{ChosenScanSettings, ScanConfigError, ScanStatus, WalkupScanToCompSettings};

fn status(adf_state: &str) -> ScanStatus {
    ScanStatus { scanner_status: "Idle".to_string(), adf_state: adf_state.to_string() }
}

fn preset(shortcut: &str) -> WalkupScanToCompSettings {
    WalkupScanToCompSettings {
        settings: ChosenScanSettings { scan_plex_mode: "Simplex".to_string() },
        shortcut: shortcut.to_string(),
    }
}

#[test]
fn loaded_feeder_document_shortcut_maps_to_adf_jpeg_document() {
    let settings = create_job(status("Loaded"), preset("SaveDocument1")).unwrap();
    assert_eq!(settings.input_source, "Adf");
    assert_eq!(settings.format, "Jpeg");
    assert_eq!(settings.content_type, "Document");
}

#[test]
fn empty_feeder_photo_shortcut_maps_to_platen_jpeg_photo() {
    let settings = create_job(status("Empty"), preset("SavePhoto1")).unwrap();
    assert_eq!(settings.input_source, "Platen");
    assert_eq!(settings.format, "Jpeg");
    assert_eq!(settings.content_type, "Photo");
}

#[test]
fn fixed_geometry_and_tone_map_defaults() {
    let settings = create_job(status("Loaded"), preset("SavePhoto1")).unwrap();
    assert_eq!(settings.x_resolution, 200);
    assert_eq!(settings.y_resolution, 200);
    assert_eq!(settings.x_start, 33);
    assert_eq!(settings.y_start, 0);
    assert_eq!(settings.width, 2481);
    assert_eq!(settings.height, 3507);
    assert_eq!(settings.compression_q_factor, 0);
    assert_eq!(settings.color_space, "Color");
    assert_eq!(settings.bit_depth, 8);
    assert_eq!(settings.gray_rendering, "NTSC");
    assert_eq!(settings.sharpening_level, 128);
    assert_eq!(settings.noise_removal, 0);
    assert_eq!(settings.tone_map.gamma, 1000);
    assert_eq!(settings.tone_map.brightness, 1000);
    assert_eq!(settings.tone_map.contrast, 1000);
    assert_eq!(settings.tone_map.highlite, 179);
    assert_eq!(settings.tone_map.shadow, 25);
    assert_eq!(settings.tone_map.threshold, 0);
}

#[test]
fn unknown_feeder_state_is_a_configuration_error() {
    let result = create_job(status("Jammed"), preset("SaveDocument1"));
    assert!(matches!(result, Err(ScanConfigError::UnexpectedAdfState)));
}

#[test]
fn unknown_shortcut_is_a_configuration_error() {
    let result = create_job(status("Empty"), preset("SaveEmail1"));
    assert!(matches!(result, Err(ScanConfigError::UnexpectedShortcut)));
}

#[test]
fn feeder_state_is_checked_before_the_shortcut() {
    let result = create_job(status("Jammed"), preset("SaveEmail1"));
    assert!(matches!(result, Err(ScanConfigError::UnexpectedAdfState)));
}
