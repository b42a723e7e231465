//! Earthquake reports.

use vstd::prelude::*;
use vstd::string::StringExecFns;

use super::{alert_of, Alert, Notification, NotificationService};
use crate::config::ServiceConfig;
use crate::state::Manager;
use crate::telegram::{escape_markdown, escaped};
use crate::time::{date_time_label, date_time_text, label_of, millis_to_secs, whole_seconds, UnixTime};

verus! {

/// One earthquake of the remote feed, as decoded from its response. The
/// magnitude and the coordinates are carried as the texts to show.
#[derive(Debug)]
pub struct Feature {
    pub id: String,
    /// The magnitude with two decimals.
    pub magnitude: String,
    pub place: String,
    /// Time of the earthquake in milliseconds since the Unix epoch.
    pub time: i64,
    pub url: String,
    /// The latitude in degrees, written in full.
    pub latitude: String,
    /// The longitude in degrees, written in full.
    pub longitude: String,
    /// The latitude in degrees with four decimals.
    pub latitude_fixed: String,
    /// The longitude in degrees with four decimals.
    pub longitude_fixed: String,
}

/// The address of a map of the place with the given coordinates.
pub open spec fn map_address(
    latitude: Seq<char>,
    longitude: Seq<char>,
    latitude_fixed: Seq<char>,
    longitude_fixed: Seq<char>,
) -> Seq<char> {
    "https://www.google.com/maps/place/"@ + latitude + ","@ + longitude + "/@"@ + latitude_fixed
        + ","@ + longitude_fixed + ",5z"@
}

/// The address of a map of the place with the given coordinates.
pub fn map_link(latitude: &str, longitude: &str, latitude_fixed: &str, longitude_fixed: &str) -> (r:
    String)
    ensures
        r@ == map_address(latitude@, longitude@, latitude_fixed@, longitude_fixed@),
{
    let mut url = String::from_str("https://www.google.com/maps/place/");
    url.append(latitude);
    url.append(",");
    url.append(longitude);
    url.append("/@");
    url.append(latitude_fixed);
    url.append(",");
    url.append(longitude_fixed);
    url.append(",5z");
    url
}

/// The alert for one earthquake.
#[derive(Debug)]
pub struct EarthquakeNotification {
    id: String,
    magnitude: String,
    location: String,
    time: i64,
    url: String,
    map_url: String,
}

/// What an earthquake alert holds.
pub struct Report {
    pub id: Seq<char>,
    pub magnitude: Seq<char>,
    pub location: Seq<char>,
    pub time: i64,
    pub url: Seq<char>,
    pub map_url: Seq<char>,
}

impl View for EarthquakeNotification {
    type V = Report;

    closed spec fn view(&self) -> Report {
        Report {
            id: self.id@,
            magnitude: self.magnitude@,
            location: self.location@,
            time: self.time,
            url: self.url@,
            map_url: self.map_url@,
        }
    }
}

/// The message for an earthquake, given the text of its time.
pub open spec fn report_text(
    magnitude: Seq<char>,
    location: Seq<char>,
    time_text: Seq<char>,
    map_url: Seq<char>,
    url: Seq<char>,
) -> Seq<char> {
    "\u{f0}\u{178}\u{152} *Earthquake Report* \u{f0}\u{178}\u{152}"@ + "\n\n*Magnitude:* "@
        + escaped(magnitude) + "\n*Location:* "@ + escaped(location) + "\n*Time:* "@ + escaped(
        time_text,
    ) + "\n*Map:* [Google Maps]("@ + map_url + ") \\| [Details on USGS]("@ + url + ")"@
}

impl EarthquakeNotification {
    /// The message, given the text of the earthquake's time.
    pub fn render(&self, time_text: &str) -> (r: String)
        ensures
            r@ == report_text(
                self@.magnitude,
                self@.location,
                time_text@,
                self@.map_url,
                self@.url,
            ),
    {
        let mut msg = String::from_str(
            "\u{f0}\u{178}\u{152} *Earthquake Report* \u{f0}\u{178}\u{152}",
        );
        msg.append("\n\n*Magnitude:* ");
        msg.append(escape_markdown(self.magnitude.as_str()).as_str());
        msg.append("\n*Location:* ");
        msg.append(escape_markdown(self.location.as_str()).as_str());
        msg.append("\n*Time:* ");
        msg.append(escape_markdown(time_text).as_str());
        msg.append("\n*Map:* [Google Maps](");
        msg.append(self.map_url.as_str());
        msg.append(") \\| [Details on USGS](");
        msg.append(self.url.as_str());
        msg.append(")");
        msg
    }
}

impl Notification for EarthquakeNotification {
    open spec fn unique_id(&self) -> Seq<char> {
        self@.id
    }

    open spec fn timestamp(&self) -> i64 {
        self@.time
    }

    open spec fn message(&self) -> Seq<char> {
        report_text(
            self@.magnitude,
            self@.location,
            label_of(date_time_text(self@.time)),
            self@.map_url,
            self@.url,
        )
    }

    fn get_unique_id(&self) -> (r: &str) {
        self.id.as_str()
    }

    fn get_timestamp(&self) -> (r: i64) {
        self.time
    }

    fn format_message(&self) -> (r: String) {
        let time_text = date_time_label(self.time);
        self.render(time_text.as_str())
    }
}

/// What the alert for an earthquake of the feed holds: the fields of the feed,
/// with the time in whole seconds.
pub open spec fn feature_report(feature: Feature) -> Report {
    Report {
        id: feature.id@,
        magnitude: feature.magnitude@,
        location: feature.place@,
        time: whole_seconds(feature.time),
        url: feature.url@,
        map_url: map_address(
            feature.latitude@,
            feature.longitude@,
            feature.latitude_fixed@,
            feature.longitude_fixed@,
        ),
    }
}

/// The alert that an earthquake of the feed stands for.
pub open spec fn feature_alert(feature: Feature) -> Alert {
    Alert {
        id: feature.id@,
        timestamp: whole_seconds(feature.time),
        message: report_text(
            feature.magnitude@,
            feature.place@,
            label_of(date_time_text(whole_seconds(feature.time))),
            map_address(
                feature.latitude@,
                feature.longitude@,
                feature.latitude_fixed@,
                feature.longitude_fixed@,
            ),
            feature.url@,
        ),
    }
}

/// The alert item for an earthquake of the feed.
pub fn notification_of(feature: Feature) -> (r: EarthquakeNotification)
    ensures
        r@ == feature_report(feature),
        alert_of::<EarthquakeNotification>()(r) == feature_alert(feature),
{
    EarthquakeNotification {
        time: millis_to_secs(feature.time),
        map_url: map_link(
            feature.latitude.as_str(),
            feature.longitude.as_str(),
            feature.latitude_fixed.as_str(),
            feature.longitude_fixed.as_str(),
        ),
        id: feature.id,
        magnitude: feature.magnitude,
        location: feature.place,
        url: feature.url,
    }
}

/// The address of the feed: earthquakes of magnitude 4.5 and more of the last
/// day.
pub fn feed_url() -> (r: String)
    ensures
        r@ == "https://earthquake.usgs.gov/earthquakes/feed/v1.0/summary/4.5_day.geojson"@,
{
    String::from_str("https://earthquake.usgs.gov/earthquakes/feed/v1.0/summary/4.5_day.geojson")
}

/// The earthquake source.
pub struct Service {
    state: Manager,
    config: ServiceConfig,
}

impl Service {
    /// The source with the given settings and an empty store, whose snapshot
    /// is `seen_quakes.json` and whose records are honoured for 72 hours.
    pub fn new(config: ServiceConfig) -> (r: Service)
        ensures
            r.manager().wf(),
            r.manager()@ == Map::<Seq<char>, i64>::empty(),
            r.manager().path() == "seen_quakes.json"@,
            r.manager().retention() == 72 * 3600,
            r.settings() == config,
    {
        Service { state: Manager::new(String::from_str("seen_quakes.json"), 72 * 3600), config }
    }
}

impl NotificationService for Service {
    type Candidate = Feature;

    type Item = EarthquakeNotification;

    open spec fn label(&self) -> Seq<char> {
        "Earthquake"@
    }

    closed spec fn settings(&self) -> ServiceConfig {
        self.config
    }

    closed spec fn manager(&self) -> Manager {
        self.state
    }

    open spec fn accepts(&self, status: u16) -> bool {
        true
    }

    open spec fn alert(&self, candidate: Feature, now: UnixTime) -> Option<Alert> {
        Some(feature_alert(candidate))
    }

    fn name(&self) -> (r: &str) {
        "Earthquake"
    }

    fn get_config(&self) -> (r: &ServiceConfig) {
        &self.config
    }

    fn get_state_manager(&self) -> (r: &Manager) {
        &self.state
    }

    fn accepts_status(&self, status: u16) -> (r: bool) {
        true
    }

    fn screen_candidate(&self, candidate: Feature, now: UnixTime) -> (r: Option<
        EarthquakeNotification,
    >) {
        Some(notification_of(candidate))
    }

    fn state_manager_mut(&mut self) -> (r: &mut Manager) {
        &mut self.state
    }
}

} // verus!
