//! Derivation of a scan-settings document from the device's feeder state and
//! a destination's stored shortcut, over a fixed mapping and fixed capture
//! geometry.

use vstd::prelude::*;

use crate::objects::{ScanConfigError, ScanSettings, ScanSettingsView, ScanStatus, ToneMap, ToneMapView, WalkupScanToCompSettings};
use crate::strutil::str_eq;

verus! {

/// The input source derived from the document feeder's state: a loaded feeder
/// scans from it, an empty one from the flatbed glass.
pub open spec fn spec_input_source(adf_state: Seq<char>) -> Option<Seq<char>> {
    if adf_state == "Empty"@ {
        Some("Platen"@)
    } else if adf_state == "Loaded"@ {
        Some("Adf"@)
    } else {
        None
    }
}

/// The output format and content type derived from a destination's stored
/// shortcut.
pub open spec fn spec_format_and_content(shortcut: Seq<char>) -> Option<(Seq<char>, Seq<char>)> {
    if shortcut == "SaveDocument1"@ {
        Some(("Jpeg"@, "Document"@))
    } else if shortcut == "SavePhoto1"@ {
        Some(("Jpeg"@, "Photo"@))
    } else {
        None
    }
}

/// The tone-map defaults submitted with every job.
pub open spec fn spec_default_tone_map() -> ToneMapView {
    ToneMapView { gamma: 1000, brightness: 1000, contrast: 1000, highlite: 179, shadow: 25, threshold: 0 }
}

/// The full scan-settings document for the given derived fields: fixed
/// capture geometry (200 dpi, origin (33, 0), 2481 by 3507), fixed tone-map
/// defaults, and the derived input source, format and content type.
pub open spec fn spec_scan_settings(source: Seq<char>, format: Seq<char>, content: Seq<char>) -> ScanSettingsView {
    ScanSettingsView {
        x_resolution: 200,
        y_resolution: 200,
        x_start: 33,
        y_start: 0,
        width: 2481,
        height: 3507,
        format: format,
        compression_q_factor: 0,
        color_space: "Color"@,
        bit_depth: 8,
        input_source: source,
        gray_rendering: "NTSC"@,
        tone_map: spec_default_tone_map(),
        sharpening_level: 128,
        noise_removal: 0,
        content_type: content,
    }
}

/// What `create_job` returns: the settings document for recognized inputs,
/// and the configuration error naming the offending input otherwise, the
/// feeder state being checked first.
pub open spec fn spec_create_job(adf_state: Seq<char>, shortcut: Seq<char>) -> Result<ScanSettingsView, ScanConfigError> {
    match spec_input_source(adf_state) {
        None => Err(ScanConfigError::UnexpectedAdfState),
        Some(source) => match spec_format_and_content(shortcut) {
            None => Err(ScanConfigError::UnexpectedShortcut),
            Some((format, content)) => Ok(spec_scan_settings(source, format, content)),
        },
    }
}

/// Builds the scan-settings document for one scan attempt from the current
/// device status and the triggered destination's stored preset. A feeder
/// state or shortcut outside the fixed mapping is a configuration error that
/// aborts only this attempt.
pub fn create_job(status: ScanStatus, settings: WalkupScanToCompSettings) -> (r: Result<ScanSettings, ScanConfigError>)
    ensures
        match r {
            Ok(s) => spec_create_job(status.adf_state@, settings.shortcut@) == Ok::<ScanSettingsView, ScanConfigError>(s@),
            Err(e) => spec_create_job(status.adf_state@, settings.shortcut@) == Err::<ScanSettingsView, ScanConfigError>(e),
        },
{
    let source: &str = if str_eq(status.adf_state.as_str(), "Empty") {
        "Platen"
    } else if str_eq(status.adf_state.as_str(), "Loaded") {
        "Adf"
    } else {
        return Err(ScanConfigError::UnexpectedAdfState);
    };

    let (format, content): (&str, &str) = if str_eq(settings.shortcut.as_str(), "SaveDocument1") {
        ("Jpeg", "Document")
    } else if str_eq(settings.shortcut.as_str(), "SavePhoto1") {
        ("Jpeg", "Photo")
    } else {
        return Err(ScanConfigError::UnexpectedShortcut);
    };

    Ok(ScanSettings {
        x_resolution: 200,
        y_resolution: 200,
        x_start: 33,
        y_start: 0,
        width: 2481,
        height: 3507,
        format: format.to_owned(),
        compression_q_factor: 0,
        color_space: "Color".to_owned(),
        bit_depth: 8,
        input_source: source.to_owned(),
        gray_rendering: "NTSC".to_owned(),
        tone_map: ToneMap { gamma: 1000, brightness: 1000, contrast: 1000, highlite: 179, shadow: 25, threshold: 0 },
        sharpening_level: 128,
        noise_removal: 0,
        content_type: content.to_owned(),
    })
}

} // verus!
