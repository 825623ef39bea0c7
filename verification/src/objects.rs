//! The data model of the scanner protocol: destinations, scan settings,
//! device status, events, jobs and pages, together with the error types of
//! the library. Each executable type has a mathematical view over `Seq`,
//! `int` and `Option` that the contracts speak of.

use vstd::prelude::*;

verus! {

// ---------------------------------------------------------------------------
// Destinations and their stored scan presets
// ---------------------------------------------------------------------------

/// The scan settings stored inside a destination's preset.
pub struct ChosenScanSettings {
    pub scan_plex_mode: String,
}

pub struct ChosenScanSettingsView {
    pub scan_plex_mode: Seq<char>,
}

impl View for ChosenScanSettings {
    type V = ChosenScanSettingsView;

    open spec fn view(&self) -> ChosenScanSettingsView {
        ChosenScanSettingsView { scan_plex_mode: self.scan_plex_mode@ }
    }
}

/// A destination's stored preset: a content shortcut plus plex settings,
/// resolved at scan time into concrete job settings.
pub struct WalkupScanToCompSettings {
    pub settings: ChosenScanSettings,
    pub shortcut: String,
}

pub struct WalkupScanToCompSettingsView {
    pub settings: ChosenScanSettingsView,
    pub shortcut: Seq<char>,
}

impl View for WalkupScanToCompSettings {
    type V = WalkupScanToCompSettingsView;

    open spec fn view(&self) -> WalkupScanToCompSettingsView {
        WalkupScanToCompSettingsView { settings: self.settings@, shortcut: self.shortcut@ }
    }
}

/// A notification target registered with the device.
pub struct WalkupDestination {
    pub hostname: String,
    pub name: String,
    pub link_type: String,
    pub resource_uri: Option<String>,
    pub settings: Option<WalkupScanToCompSettings>,
}

pub struct WalkupDestinationView {
    pub hostname: Seq<char>,
    pub name: Seq<char>,
    pub link_type: Seq<char>,
    pub resource_uri: Option<Seq<char>>,
    pub settings: Option<WalkupScanToCompSettingsView>,
}

impl View for WalkupDestination {
    type V = WalkupDestinationView;

    open spec fn view(&self) -> WalkupDestinationView {
        WalkupDestinationView {
            hostname: self.hostname@,
            name: self.name@,
            link_type: self.link_type@,
            resource_uri: match self.resource_uri {
                Some(ref u) => Some(u@),
                None => None,
            },
            settings: match self.settings {
                Some(ref s) => Some(s@),
                None => None,
            },
        }
    }
}

/// The device's list of registered destinations.
pub struct WalkupDestinations {
    pub destinations: Vec<WalkupDestination>,
}

impl View for WalkupDestinations {
    type V = Seq<WalkupDestinationView>;

    open spec fn view(&self) -> Seq<WalkupDestinationView> {
        self.destinations@.map_values(|d: WalkupDestination| d@)
    }
}

// ---------------------------------------------------------------------------
// Device status and scan settings
// ---------------------------------------------------------------------------

/// Scanner readiness and document-feeder state, fetched fresh per attempt.
pub struct ScanStatus {
    pub scanner_status: String,
    pub adf_state: String,
}

pub struct ScanStatusView {
    pub scanner_status: Seq<char>,
    pub adf_state: Seq<char>,
}

impl View for ScanStatus {
    type V = ScanStatusView;

    open spec fn view(&self) -> ScanStatusView {
        ScanStatusView { scanner_status: self.scanner_status@, adf_state: self.adf_state@ }
    }
}

/// Tone-map defaults submitted with every scan job.
pub struct ToneMap {
    pub gamma: i32,
    pub brightness: i32,
    pub contrast: i32,
    pub highlite: i32,
    pub shadow: i32,
    pub threshold: i32,
}

pub struct ToneMapView {
    pub gamma: int,
    pub brightness: int,
    pub contrast: int,
    pub highlite: int,
    pub shadow: int,
    pub threshold: int,
}

impl View for ToneMap {
    type V = ToneMapView;

    open spec fn view(&self) -> ToneMapView {
        ToneMapView {
            gamma: self.gamma as int,
            brightness: self.brightness as int,
            contrast: self.contrast as int,
            highlite: self.highlite as int,
            shadow: self.shadow as int,
            threshold: self.threshold as int,
        }
    }
}

/// The full scan-settings document submitted to the device.
pub struct ScanSettings {
    pub x_resolution: i16,
    pub y_resolution: i16,
    pub x_start: i32,
    pub y_start: i32,
    pub width: i32,
    pub height: i32,
    pub format: String,
    pub compression_q_factor: i32,
    pub color_space: String,
    pub bit_depth: i8,
    pub input_source: String,
    pub gray_rendering: String,
    pub tone_map: ToneMap,
    pub sharpening_level: u8,
    pub noise_removal: i8,
    pub content_type: String,
}

pub struct ScanSettingsView {
    pub x_resolution: int,
    pub y_resolution: int,
    pub x_start: int,
    pub y_start: int,
    pub width: int,
    pub height: int,
    pub format: Seq<char>,
    pub compression_q_factor: int,
    pub color_space: Seq<char>,
    pub bit_depth: int,
    pub input_source: Seq<char>,
    pub gray_rendering: Seq<char>,
    pub tone_map: ToneMapView,
    pub sharpening_level: int,
    pub noise_removal: int,
    pub content_type: Seq<char>,
}

impl View for ScanSettings {
    type V = ScanSettingsView;

    open spec fn view(&self) -> ScanSettingsView {
        ScanSettingsView {
            x_resolution: self.x_resolution as int,
            y_resolution: self.y_resolution as int,
            x_start: self.x_start as int,
            y_start: self.y_start as int,
            width: self.width as int,
            height: self.height as int,
            format: self.format@,
            compression_q_factor: self.compression_q_factor as int,
            color_space: self.color_space@,
            bit_depth: self.bit_depth as int,
            input_source: self.input_source@,
            gray_rendering: self.gray_rendering@,
            tone_map: self.tone_map@,
            sharpening_level: self.sharpening_level as int,
            noise_removal: self.noise_removal as int,
            content_type: self.content_type@,
        }
    }
}

// ---------------------------------------------------------------------------
// Events
// ---------------------------------------------------------------------------

/// The device's current scan-to-comp event, fetched when a trigger arrives.
pub struct WalkupScanToCompEvent {
    pub event_type: String,
}

impl View for WalkupScanToCompEvent {
    type V = Seq<char>;

    open spec fn view(&self) -> Seq<char> {
        self.event_type@
    }
}

/// A payload reference carried by an event: a resource type and its URI.
pub struct Payload {
    pub resource_uri: String,
    pub resource_type: String,
}

pub struct PayloadView {
    pub resource_uri: Seq<char>,
    pub resource_type: Seq<char>,
}

impl View for Payload {
    type V = PayloadView;

    open spec fn view(&self) -> PayloadView {
        PayloadView { resource_uri: self.resource_uri@, resource_type: self.resource_type@ }
    }
}

/// One entry of the device's event feed.
pub struct Event {
    pub aging_stamp: String,
    pub unqualified_event_category: String,
    pub payloads: Vec<Payload>,
}

pub struct EventView {
    pub aging_stamp: Seq<char>,
    pub unqualified_event_category: Seq<char>,
    pub payloads: Seq<PayloadView>,
}

impl View for Event {
    type V = EventView;

    open spec fn view(&self) -> EventView {
        EventView {
            aging_stamp: self.aging_stamp@,
            unqualified_event_category: self.unqualified_event_category@,
            payloads: self.payloads@.map_values(|p: Payload| p@),
        }
    }
}

/// An ordered batch of events returned by one fetch.
pub struct EventTable {
    pub events: Vec<Event>,
}

impl View for EventTable {
    type V = Seq<EventView>;

    open spec fn view(&self) -> Seq<EventView> {
        self.events@.map_values(|e: Event| e@)
    }
}

// ---------------------------------------------------------------------------
// Jobs and pages
// ---------------------------------------------------------------------------

/// A per-page descriptor of in-progress capture state.
pub struct PreScanPage {
    pub number: i32,
    pub state: String,
    pub binary_url: String,
    pub image_orientation: String,
}

pub struct PreScanPageView {
    pub number: int,
    pub state: Seq<char>,
    pub binary_url: Seq<char>,
    pub image_orientation: Seq<char>,
}

impl View for PreScanPage {
    type V = PreScanPageView;

    open spec fn view(&self) -> PreScanPageView {
        PreScanPageView {
            number: self.number as int,
            state: self.state@,
            binary_url: self.binary_url@,
            image_orientation: self.image_orientation@,
        }
    }
}

/// A per-page descriptor of a finished page.
pub struct PostScanPage {
    pub number: i32,
    pub state: String,
    pub total_lines: i32,
}

pub struct PostScanPageView {
    pub number: int,
    pub state: Seq<char>,
    pub total_lines: int,
}

impl View for PostScanPage {
    type V = PostScanPageView;

    open spec fn view(&self) -> PostScanPageView {
        PostScanPageView {
            number: self.number as int,
            state: self.state@,
            total_lines: self.total_lines as int,
        }
    }
}

/// The per-page portion of a job resource.
pub struct ScanJob {
    pub pre_scan_page: Vec<PreScanPage>,
    pub post_scan_page: Vec<PostScanPage>,
}

pub struct ScanJobView {
    pub pre_scan_page: Seq<PreScanPageView>,
    pub post_scan_page: Seq<PostScanPageView>,
}

impl View for ScanJob {
    type V = ScanJobView;

    open spec fn view(&self) -> ScanJobView {
        ScanJobView {
            pre_scan_page: self.pre_scan_page@.map_values(|p: PreScanPage| p@),
            post_scan_page: self.post_scan_page@.map_values(|p: PostScanPage| p@),
        }
    }
}

/// A server-side scan job resource, identified by a location URL.
pub struct Job {
    pub url: String,
    pub state: String,
    pub source: String,
    pub category: String,
    pub scan_job: ScanJob,
}

pub struct JobView {
    pub url: Seq<char>,
    pub state: Seq<char>,
    pub source: Seq<char>,
    pub category: Seq<char>,
    pub scan_job: ScanJobView,
}

impl View for Job {
    type V = JobView;

    open spec fn view(&self) -> JobView {
        JobView {
            url: self.url@,
            state: self.state@,
            source: self.source@,
            category: self.category@,
            scan_job: self.scan_job@,
        }
    }
}

// ---------------------------------------------------------------------------
// Errors
// ---------------------------------------------------------------------------

/// Failure to read a destination from the device.
#[derive(Clone, Copy, Debug)]
pub struct GetDestinationError;

/// Failure to register a destination: the device refused the request, or the
/// returned location did not carry a well-formed destination id.
#[derive(Clone, Copy, Debug)]
pub struct AddDestinationError;

/// Failure to remove a destination from the device.
#[derive(Clone, Copy, Debug)]
pub struct DeleteDestinationError;

/// Failure to download a page's binary resource.
#[derive(Clone, Copy, Debug)]
pub struct DownloadError;

/// A registry bookkeeping inconsistency: an id was reported removed that the
/// registry never tracked.
#[derive(Clone, Copy, Debug)]
pub struct StateError;

impl GetDestinationError {
    /// The error's display text.
    pub fn message(&self) -> (r: String)
        ensures
            r@ == "Error getting walkup destinations"@,
    {
        "Error getting walkup destinations".to_owned()
    }
}

impl AddDestinationError {
    /// The error's display text.
    pub fn message(&self) -> (r: String)
        ensures
            r@ == "Error adding walkup destination"@,
    {
        "Error adding walkup destination".to_owned()
    }
}

impl DeleteDestinationError {
    /// The error's display text.
    pub fn message(&self) -> (r: String)
        ensures
            r@ == "Error deleting walkup destination"@,
    {
        "Error deleting walkup destination".to_owned()
    }
}

impl DownloadError {
    /// The error's display text.
    pub fn message(&self) -> (r: String)
        ensures
            r@ == "Error downloading file"@,
    {
        "Error downloading file".to_owned()
    }
}

/// A protocol-level failure carrying a description of the failed operation.
#[derive(Clone, Debug)]
pub struct ApiError {
    pub details: String,
}

impl ApiError {
    /// Builds an error around a description of what failed.
    pub fn new(msg: &str) -> (e: ApiError)
        ensures
            e.details@ == msg@,
    {
        ApiError { details: msg.to_owned() }
    }

    /// The error's display text.
    pub fn message(&self) -> (r: String)
        ensures
            r@ == self.details@,
    {
        self.details.clone()
    }
}

/// The configuration errors of scan-settings derivation: the device reported
/// a feeder state, or the destination a shortcut, outside the fixed mapping.
#[derive(Clone, Copy, Debug, PartialEq, Eq)]
pub enum ScanConfigError {
    UnexpectedAdfState,
    UnexpectedShortcut,
}

} // verus!
