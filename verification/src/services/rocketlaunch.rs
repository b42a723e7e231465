//! Upcoming rocket launches.

use vstd::prelude::*;
use vstd::string::StringExecFns;

use super::{alert_of, Alert, Notification, NotificationService};
use crate::config::ServiceConfig;
use crate::state::Manager;
use crate::telegram::{escape_markdown, escaped};
use crate::time::{
    date_time_label, date_time_text, format_rfc3339, label_of, parse_rfc3339, rfc3339_text,
    rfc3339_time, text_of, UnixTime,
};

verus! {

/// One launch of the remote list, as decoded from its response.
#[derive(Debug)]
pub struct Launch {
    pub id: String,
    pub name: String,
    /// The planned launch time as RFC 3339 text.
    pub net: String,
    /// Name of the launch service provider.
    pub agency: String,
    /// Full name of the rocket configuration.
    pub vehicle: String,
    /// Links to video streams, in the order of the response.
    pub video_urls: Vec<String>,
}

/// The alert for one launch.
#[derive(Debug)]
pub struct RocketLaunchNotification {
    id: String,
    name: String,
    agency: String,
    vehicle: String,
    launch_time: i64,
    watch_url: Option<String>,
}

/// What a launch alert holds.
pub struct LaunchAlert {
    pub id: Seq<char>,
    pub name: Seq<char>,
    pub agency: Seq<char>,
    pub vehicle: Seq<char>,
    pub launch_time: i64,
    pub watch_url: Option<Seq<char>>,
}

impl View for RocketLaunchNotification {
    type V = LaunchAlert;

    closed spec fn view(&self) -> LaunchAlert {
        LaunchAlert {
            id: self.id@,
            name: self.name@,
            agency: self.agency@,
            vehicle: self.vehicle@,
            launch_time: self.launch_time,
            watch_url: text_of(self.watch_url),
        }
    }
}

/// The line that offers the video stream, if there is one.
pub open spec fn watch_line(watch_url: Option<Seq<char>>) -> Seq<char> {
    match watch_url {
        Some(url) => "\n*Watch Live:* [Click Here]("@ + url + ")"@,
        None => Seq::<char>::empty(),
    }
}

/// The message for a launch, given the text of its time.
pub open spec fn launch_text(launch: LaunchAlert, time_text: Seq<char>) -> Seq<char> {
    "\u{1f680} *Rocket Launch Alert* \u{1f680}"@ + "\n\n*Mission:* "@ + escaped(launch.name)
        + "\n*Agency:* "@ + escaped(launch.agency) + "\n*Vehicle:* "@ + escaped(launch.vehicle)
        + "\n*Launch Time:* "@ + escaped(time_text) + watch_line(launch.watch_url)
}

impl RocketLaunchNotification {
    /// The message, given the text of the launch time.
    pub fn render(&self, time_text: &str) -> (r: String)
        ensures
            r@ == launch_text(self@, time_text@),
    {
        let mut msg = String::from_str("\u{1f680} *Rocket Launch Alert* \u{1f680}");
        msg.append("\n\n*Mission:* ");
        msg.append(escape_markdown(self.name.as_str()).as_str());
        msg.append("\n*Agency:* ");
        msg.append(escape_markdown(self.agency.as_str()).as_str());
        msg.append("\n*Vehicle:* ");
        msg.append(escape_markdown(self.vehicle.as_str()).as_str());
        msg.append("\n*Launch Time:* ");
        msg.append(escape_markdown(time_text).as_str());
        match &self.watch_url {
            Some(url) => {
                msg.append("\n*Watch Live:* [Click Here](");
                msg.append(url.as_str());
                msg.append(")");
            },
            None => {
                assert(msg@ + Seq::<char>::empty() == msg@);
            },
        }
        msg
    }
}

impl Notification for RocketLaunchNotification {
    open spec fn unique_id(&self) -> Seq<char> {
        self@.id
    }

    open spec fn timestamp(&self) -> i64 {
        self@.launch_time
    }

    open spec fn message(&self) -> Seq<char> {
        launch_text(self@, label_of(date_time_text(self@.launch_time)))
    }

    fn get_unique_id(&self) -> (r: &str) {
        self.id.as_str()
    }

    fn get_timestamp(&self) -> (r: i64) {
        self.launch_time
    }

    fn format_message(&self) -> (r: String) {
        let time_text = date_time_label(self.launch_time);
        self.render(time_text.as_str())
    }
}

/// The second of the day of a time.
pub open spec fn second_of_day(time: UnixTime) -> int {
    (time.secs as int) % 86_400
}

/// Whether a time stands in a leap second: a second 60, carried as a full
/// second of nanoseconds past the second 59.
pub open spec fn in_leap_second(time: UnixTime) -> bool {
    time.nanos >= 1_000_000_000
}

/// The seconds to count besides the difference of the seconds since the epoch
/// when a time in a leap second is taken from, or taken away from, a time at
/// another second of the day: the leap second lies between the two.
pub open spec fn leap_seconds_between(from: UnixTime, to: UnixTime) -> int {
    if second_of_day(to) > second_of_day(from) && in_leap_second(from) {
        1
    } else if second_of_day(to) < second_of_day(from) && in_leap_second(to) {
        -1
    } else {
        0
    }
}

/// The nanoseconds from `from` until `to`, negative where `to` is the
/// earlier: the difference of the seconds since the epoch and of the
/// nanoseconds past the second, with the leap second between the two counted.
pub open spec fn nanos_until(from: UnixTime, to: UnixTime) -> int {
    (to.secs - from.secs + leap_seconds_between(from, to)) * 1_000_000_000 + to.nanos
        - from.nanos
}

/// Whether a launch at `launch` is close enough at `now` to alert on: less than
/// one check interval and a minute ahead. A launch in the past is close enough.
pub open spec fn is_imminent(launch: UnixTime, now: UnixTime, interval: u64) -> bool {
    nanos_until(now, launch) < (interval + 60) * 1_000_000_000
}

fn day_second(secs: i64) -> (r: i64)
    ensures
        r == (secs as int) % 86_400,
{
    let r = secs % 86_400;
    if r < 0 {
        r + 86_400
    } else {
        r
    }
}

/// Whether a launch at `launch` is close enough at `now` to alert on.
pub fn imminent(launch: UnixTime, now: UnixTime, interval: u64) -> (r: bool)
    ensures
        r == is_imminent(launch, now, interval),
{
    let at = day_second(launch.secs);
    let from = day_second(now.secs);
    let leap: i128 = if at > from && now.nanos >= 1_000_000_000 {
        1
    } else if at < from && launch.nanos >= 1_000_000_000 {
        -1
    } else {
        0
    };
    let until: i128 = (launch.secs as i128 - now.secs as i128 + leap) * 1_000_000_000
        + launch.nanos as i128 - now.nanos as i128;
    let ahead: i128 = (interval as i128 + 60) * 1_000_000_000;
    until < ahead
}

/// The first video link of a launch, if it has one.
pub open spec fn first_link(links: Seq<String>) -> Option<Seq<char>> {
    if links.len() > 0 {
        Some(links[0]@)
    } else {
        None
    }
}

/// What the alert for a launch of the list holds, given its launch time.
pub open spec fn launch_alert(launch: Launch, at: UnixTime) -> LaunchAlert {
    LaunchAlert {
        id: launch.id@,
        name: launch.name@,
        agency: launch.agency@,
        vehicle: launch.vehicle@,
        launch_time: at.secs,
        watch_url: first_link(launch.video_urls@),
    }
}

/// What a launch of the list becomes, given what its launch time reads as: an
/// alert where the time can be read and is close enough, else nothing.
pub open spec fn screened(launch: Launch, at: Option<UnixTime>, now: UnixTime, interval: u64) -> Option<
    LaunchAlert,
> {
    match at {
        Some(t) => if is_imminent(t, now, interval) {
            Some(launch_alert(launch, t))
        } else {
            None
        },
        None => None,
    }
}

/// The alert that a launch alert item stands for.
pub open spec fn alert_for(launch: LaunchAlert) -> Alert {
    Alert {
        id: launch.id,
        timestamp: launch.launch_time,
        message: launch_text(launch, label_of(date_time_text(launch.launch_time))),
    }
}

/// The alert item for a launch of the list whose launch time reads as `at`, or
/// nothing where the launch is passed over.
pub fn screen(launch: Launch, at: Option<UnixTime>, now: UnixTime, interval: u64) -> (r: Option<
    RocketLaunchNotification,
>)
    ensures
        match r {
            Some(n) => screened(launch, at, now, interval) == Some(n@),
            None => screened(launch, at, now, interval) is None,
        },
{
    match at {
        Some(t) => {
            if imminent(t, now, interval) {
                let watch_url = if launch.video_urls.len() > 0 {
                    Some(launch.video_urls[0].clone())
                } else {
                    None
                };
                Some(
                    RocketLaunchNotification {
                        id: launch.id,
                        name: launch.name,
                        agency: launch.agency,
                        vehicle: launch.vehicle,
                        launch_time: t.secs,
                        watch_url,
                    },
                )
            } else {
                None
            }
        },
        None => None,
    }
}

/// The address of the list of launches up to `window_end`.
pub open spec fn upcoming_address(window_end: Seq<char>) -> Seq<char> {
    "https://ll.thespacedevs.com/2.2.0/launch/upcoming/?limit=10&window_end="@ + window_end
}

/// The address of the list of launches up to `window_end`, an RFC 3339 text.
pub fn upcoming_url(window_end: &str) -> (r: String)
    ensures
        r@ == upcoming_address(window_end@),
{
    let mut url = String::from_str(
        "https://ll.thespacedevs.com/2.2.0/launch/upcoming/?limit=10&window_end=",
    );
    url.append(window_end);
    url
}

/// The address to fetch at `now`: the launches of the next 24 hours. `None`
/// where the end of that window cannot be written.
pub open spec fn request_address(now: UnixTime) -> Option<Seq<char>> {
    if now.secs + 86_400 > i64::MAX {
        None
    } else {
        match rfc3339_text((now.secs + 86_400) as i64, now.nanos) {
            Some(end) => Some(upcoming_address(end)),
            None => None,
        }
    }
}

/// The address to fetch at `now`.
pub fn request_url(now: UnixTime) -> (r: Option<String>)
    ensures
        text_of(r) == request_address(now),
{
    if now.secs > i64::MAX - 86_400 {
        return None;
    }
    match format_rfc3339(now.secs + 86_400, now.nanos) {
        Some(end) => Some(upcoming_url(end.as_str())),
        None => None,
    }
}

/// The rocket launch source.
pub struct Service {
    state: Manager,
    config: ServiceConfig,
}

impl Service {
    /// The source with the given settings and an empty store, whose snapshot
    /// is `seen_launches.json` and whose records are honoured for 30 days.
    pub fn new(config: ServiceConfig) -> (r: Service)
        ensures
            r.manager().wf(),
            r.manager()@ == Map::<Seq<char>, i64>::empty(),
            r.manager().path() == "seen_launches.json"@,
            r.manager().retention() == 30 * 24 * 3600,
            r.settings() == config,
    {
        Service {
            state: Manager::new(String::from_str("seen_launches.json"), 30 * 24 * 3600),
            config,
        }
    }
}

impl NotificationService for Service {
    type Candidate = Launch;

    type Item = RocketLaunchNotification;

    open spec fn label(&self) -> Seq<char> {
        "Rocket Launch"@
    }

    closed spec fn settings(&self) -> ServiceConfig {
        self.config
    }

    closed spec fn manager(&self) -> Manager {
        self.state
    }

    open spec fn accepts(&self, status: u16) -> bool {
        true
    }

    open spec fn alert(&self, candidate: Launch, now: UnixTime) -> Option<Alert> {
        match screened(
            candidate,
            rfc3339_time(candidate.net@),
            now,
            self.settings().check_interval,
        ) {
            Some(launch) => Some(alert_for(launch)),
            None => None,
        }
    }

    fn name(&self) -> (r: &str) {
        "Rocket Launch"
    }

    fn get_config(&self) -> (r: &ServiceConfig) {
        &self.config
    }

    fn get_state_manager(&self) -> (r: &Manager) {
        &self.state
    }

    fn accepts_status(&self, status: u16) -> (r: bool) {
        true
    }

    fn screen_candidate(&self, candidate: Launch, now: UnixTime) -> (r: Option<
        RocketLaunchNotification,
    >) {
        let at = parse_rfc3339(candidate.net.as_str());
        let item = screen(candidate, at, now, self.config.check_interval);
        assert(item matches Some(n) ==> alert_of::<RocketLaunchNotification>()(n) == alert_for(n@));
        item
    }

    fn state_manager_mut(&mut self) -> (r: &mut Manager) {
        &mut self.state
    }
}

} // verus!
