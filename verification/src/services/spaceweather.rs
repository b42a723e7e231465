//! Solar flares.

use vstd::prelude::*;
use vstd::string::StringExecFns;

use super::{alert_of, Alert, Notification, NotificationService};
use crate::config::ServiceConfig;
use crate::state::Manager;
use crate::telegram::{escape_markdown, escaped, is_success, status_ok};
use crate::text::{first_char, head};
use crate::time::{
    date_text, date_time_label, date_time_text, format_date, label_of, parse_rfc3339,
    rfc3339_time, text_of, UnixTime,
};

verus! {

/// One flare of the remote list, as decoded from its response.
#[derive(Debug)]
pub struct FlareEvent {
    pub flr_id: String,
    /// The time at which the flare began, as RFC 3339 text.
    pub begin_time: String,
    pub class_type: String,
    pub link: String,
}

/// The alert for one flare.
#[derive(Debug)]
pub struct SpaceWeatherNotification {
    id: String,
    event_type: String,
    time: i64,
    class_type: String,
    url: String,
}

/// What a flare alert holds.
pub struct FlareAlert {
    pub id: Seq<char>,
    pub event_type: Seq<char>,
    pub time: i64,
    pub class_type: Seq<char>,
    pub url: Seq<char>,
}

impl View for SpaceWeatherNotification {
    type V = FlareAlert;

    closed spec fn view(&self) -> FlareAlert {
        FlareAlert {
            id: self.id@,
            event_type: self.event_type@,
            time: self.time,
            class_type: self.class_type@,
            url: self.url@,
        }
    }
}

/// The message for a flare, given the text of its time.
pub open spec fn flare_text(flare: FlareAlert, time_text: Seq<char>) -> Seq<char> {
    "\u{2600}\u{fe0f} *Space Weather Alert* \u{2600}\u{fe0f}"@ + "\n\n*Event:* "@ + escaped(
        flare.event_type,
    ) + "\n*Class:* "@ + escaped(flare.class_type) + "\n*Time:* "@ + escaped(time_text)
        + "\n*Potential Impact:* Strong HF radio blackouts on Earth's sunlit side, increased aurora chances\\.\n*Details:* [NASA DONKI]("@
        + flare.url + ")"@
}

impl SpaceWeatherNotification {
    /// The message, given the text of the flare's time.
    pub fn render(&self, time_text: &str) -> (r: String)
        ensures
            r@ == flare_text(self@, time_text@),
    {
        let mut msg = String::from_str("\u{2600}\u{fe0f} *Space Weather Alert* \u{2600}\u{fe0f}");
        msg.append("\n\n*Event:* ");
        msg.append(escape_markdown(self.event_type.as_str()).as_str());
        msg.append("\n*Class:* ");
        msg.append(escape_markdown(self.class_type.as_str()).as_str());
        msg.append("\n*Time:* ");
        msg.append(escape_markdown(time_text).as_str());
        msg.append(
            "\n*Potential Impact:* Strong HF radio blackouts on Earth's sunlit side, increased aurora chances\\.\n*Details:* [NASA DONKI](",
        );
        msg.append(self.url.as_str());
        msg.append(")");
        msg
    }
}

impl Notification for SpaceWeatherNotification {
    open spec fn unique_id(&self) -> Seq<char> {
        self@.id
    }

    open spec fn timestamp(&self) -> i64 {
        self@.time
    }

    open spec fn message(&self) -> Seq<char> {
        flare_text(self@, label_of(date_time_text(self@.time)))
    }

    fn get_unique_id(&self) -> (r: &str) {
        self.id.as_str()
    }

    fn get_timestamp(&self) -> (r: i64) {
        self.time
    }

    fn format_message(&self) -> (r: String) {
        let time_text = date_time_label(self.time);
        self.render(time_text.as_str())
    }
}

/// Whether a flare of this class is strong enough to alert on: class X or M.
pub open spec fn is_strong(class_type: Seq<char>) -> bool {
    head(class_type) == Some('X') || head(class_type) == Some('M')
}

/// Whether a flare of this class is strong enough to alert on.
pub fn strong(class_type: &str) -> (r: bool)
    ensures
        r == is_strong(class_type@),
{
    match first_char(class_type) {
        Some(c) => c == 'X' || c == 'M',
        None => false,
    }
}

/// What the alert for a flare of the list holds, given the time it began.
pub open spec fn flare_alert(event: FlareEvent, began: UnixTime) -> FlareAlert {
    FlareAlert {
        id: event.flr_id@,
        event_type: "Solar Flare Detected"@,
        time: began.secs,
        class_type: event.class_type@,
        url: event.link@,
    }
}

/// What a flare of the list becomes, given what its begin time reads as: an
/// alert where the flare is strong and the time can be read, else nothing.
pub open spec fn screened(event: FlareEvent, began: Option<UnixTime>) -> Option<FlareAlert> {
    match began {
        Some(t) => if is_strong(event.class_type@) {
            Some(flare_alert(event, t))
        } else {
            None
        },
        None => None,
    }
}

/// The alert that a flare alert item stands for.
pub open spec fn alert_for(flare: FlareAlert) -> Alert {
    Alert {
        id: flare.id,
        timestamp: flare.time,
        message: flare_text(flare, label_of(date_time_text(flare.time))),
    }
}

/// The alert item for a flare of the list whose begin time reads as `began`,
/// or nothing where the flare is passed over.
pub fn screen(event: FlareEvent, began: Option<UnixTime>) -> (r: Option<SpaceWeatherNotification>)
    ensures
        match r {
            Some(n) => screened(event, began) == Some(n@),
            None => screened(event, began) is None,
        },
{
    match began {
        Some(t) => {
            if strong(event.class_type.as_str()) {
                Some(
                    SpaceWeatherNotification {
                        id: event.flr_id,
                        event_type: String::from_str("Solar Flare Detected"),
                        time: t.secs,
                        class_type: event.class_type,
                        url: event.link,
                    },
                )
            } else {
                None
            }
        },
        None => None,
    }
}

/// The key to present where none is configured.
pub open spec fn key_or_demo(api_key: Option<Seq<char>>) -> Seq<char> {
    match api_key {
        Some(key) => key,
        None => "DEMO_KEY"@,
    }
}

/// The key to present: the configured one, or the public demonstration key.
pub fn api_key_or_demo(api_key: Option<String>) -> (r: String)
    ensures
        r@ == key_or_demo(text_of(api_key)),
{
    match api_key {
        Some(key) => key,
        None => String::from_str("DEMO_KEY"),
    }
}

/// The address of the list of flares since `start_date`.
pub open spec fn flares_address(start_date: Seq<char>, api_key: Seq<char>) -> Seq<char> {
    "https://api.nasa.gov/DONKI/FLR?startDate="@ + start_date + "&api_key="@ + api_key
}

/// The address of the list of flares since `start_date`, a calendar date.
pub fn flares_url(start_date: &str, api_key: &str) -> (r: String)
    ensures
        r@ == flares_address(start_date@, api_key@),
{
    let mut url = String::from_str("https://api.nasa.gov/DONKI/FLR?startDate=");
    url.append(start_date);
    url.append("&api_key=");
    url.append(api_key);
    url
}

/// The address to fetch at the UTC second `now`: the flares since the day
/// that was current 24 hours ago. `None` where that day cannot be written.
pub open spec fn request_address(now: i64, api_key: Seq<char>) -> Option<Seq<char>> {
    if now - 86_400 < i64::MIN {
        None
    } else {
        match date_text((now - 86_400) as i64) {
            Some(day) => Some(flares_address(day, api_key)),
            None => None,
        }
    }
}

/// The address to fetch at the UTC second `now` with the key `api_key`.
pub fn request_url(now: i64, api_key: &str) -> (r: Option<String>)
    ensures
        text_of(r) == request_address(now, api_key@),
{
    if now < i64::MIN + 86_400 {
        return None;
    }
    match format_date(now - 86_400) {
        Some(day) => Some(flares_url(day.as_str(), api_key)),
        None => None,
    }
}

/// The space weather source.
pub struct Service {
    state: Manager,
    config: ServiceConfig,
}

impl Service {
    /// The source with the given settings and an empty store, whose snapshot
    /// is `seen_space_weather.json` and whose records are honoured for 7 days.
    pub fn new(config: ServiceConfig) -> (r: Service)
        ensures
            r.manager().wf(),
            r.manager()@ == Map::<Seq<char>, i64>::empty(),
            r.manager().path() == "seen_space_weather.json"@,
            r.manager().retention() == 7 * 24 * 3600,
            r.settings() == config,
    {
        Service {
            state: Manager::new(String::from_str("seen_space_weather.json"), 7 * 24 * 3600),
            config,
        }
    }
}

impl NotificationService for Service {
    type Candidate = FlareEvent;

    type Item = SpaceWeatherNotification;

    open spec fn label(&self) -> Seq<char> {
        "Space Weather"@
    }

    closed spec fn settings(&self) -> ServiceConfig {
        self.config
    }

    closed spec fn manager(&self) -> Manager {
        self.state
    }

    open spec fn accepts(&self, status: u16) -> bool {
        status_ok(status)
    }

    open spec fn alert(&self, candidate: FlareEvent, now: UnixTime) -> Option<Alert> {
        match screened(candidate, rfc3339_time(candidate.begin_time@)) {
            Some(flare) => Some(alert_for(flare)),
            None => None,
        }
    }

    fn name(&self) -> (r: &str) {
        "Space Weather"
    }

    fn get_config(&self) -> (r: &ServiceConfig) {
        &self.config
    }

    fn get_state_manager(&self) -> (r: &Manager) {
        &self.state
    }

    fn accepts_status(&self, status: u16) -> (r: bool) {
        is_success(status)
    }

    fn screen_candidate(&self, candidate: FlareEvent, now: UnixTime) -> (r: Option<
        SpaceWeatherNotification,
    >) {
        let began = parse_rfc3339(candidate.begin_time.as_str());
        let item = screen(candidate, began);
        assert(item matches Some(n) ==> alert_of::<SpaceWeatherNotification>()(n) == alert_for(n@));
        item
    }

    fn state_manager_mut(&mut self) -> (r: &mut Manager) {
        &mut self.state
    }
}

} // verus!
