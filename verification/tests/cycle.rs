use automatex_notifier::config::ServiceConfig;
use automatex_notifier::dispatch::{poll, prepare, Outgoing};
use automatex_notifier::scheduler::{Action, Event, Monitor, Phase};
use automatex_notifier::services::earthquake::{self, Feature};
use automatex_notifier::services::{FetchError, Fetched, NotificationService};
use automatex_notifier::telegram::{Request, SendMessagePayload};
use automatex_notifier::time::UnixTime;

fn cycle_settings(link: &str, disclaimer: &str) -> ServiceConfig {
    ServiceConfig {
        enabled: true,
        check_interval: 300,
        telegram_api_key: "KEY".to_string(),
        telegram_chat_id: "42".to_string(),
        buymeacoffee_url: link.to_string(),
        disclaimer: disclaimer.to_string(),
    }
}

fn feature(id: &str) -> Feature {
    Feature {
        id: id.to_string(),
        magnitude: "6.00".to_string(),
        place: "Sea".to_string(),
        time: 0,
        url: "U".to_string(),
        latitude: "1".to_string(),
        longitude: "2".to_string(),
        latitude_fixed: "1.0000".to_string(),
        longitude_fixed: "2.0000".to_string(),
    }
}

fn message(id: &str) -> Outgoing {
    Outgoing {
        id: id.to_string(),
        request: Request {
            url: "https://api.telegram.org/botKEY/sendMessage".to_string(),
            payload: SendMessagePayload {
                chat_id: "42".to_string(),
                text: format!("text of {}", id),
                parse_mode: "MarkdownV2".to_string(),
            },
        },
    }
}

fn started() -> Monitor {
    let (monitor, first) = Monitor::start(300, 0);
    assert_eq!(first, Action::LoadState);
    assert_eq!(monitor.phase(), Phase::Loading);
    monitor
}

fn checking() -> Monitor {
    let mut monitor = started();
    assert_eq!(monitor.step(Event::StateLoaded(true), 0), Some(Action::Check));
    monitor
}

#[test]
fn first_check_follows_the_load_at_once_even_if_the_load_failed() {
    let mut monitor = started();
    assert_eq!(monitor.step(Event::StateLoaded(false), 0), Some(Action::Check));
    assert_eq!(monitor.phase(), Phase::Checking);
    let mut monitor = started();
    assert_eq!(monitor.step(Event::StateLoaded(true), 0), Some(Action::Check));
    assert_eq!(monitor.phase(), Phase::Checking);
}

#[test]
fn failed_check_does_not_save() {
    let mut monitor = checking();
    assert_eq!(monitor.step(Event::Checked(None), 0), Some(Action::AwaitTick(300_000)));
    assert_eq!(monitor.phase(), Phase::Waiting);
    assert_eq!(monitor.step(Event::StateSaved(true), 0), None);
    assert_eq!(monitor.step(Event::Ticked, 0), Some(Action::Check));
    assert_eq!(monitor.phase(), Phase::Checking);
}

#[test]
fn check_without_messages_does_not_save() {
    let mut monitor = checking();
    assert_eq!(monitor.step(Event::Checked(Some(Vec::new())), 0), Some(Action::AwaitTick(300_000)));
    assert_eq!(monitor.phase(), Phase::Waiting);
    assert_eq!(monitor.step(Event::Ticked, 0), Some(Action::Check));
}

#[test]
fn messages_are_delivered_in_order_with_a_pause_after_each_and_then_saved() {
    let mut monitor = checking();
    let batch = vec![message("A"), message("B"), message("C")];
    assert_eq!(monitor.step(Event::Checked(Some(batch)), 0), Some(Action::Deliver(message("A"))));
    assert_eq!(monitor.phase(), Phase::Delivering);
    assert_eq!(monitor.step(Event::Delivered(true), 0), Some(Action::Pace(1000)));
    assert_eq!(monitor.phase(), Phase::Pacing);
    assert_eq!(monitor.step(Event::Paced, 0), Some(Action::Deliver(message("B"))));
    assert_eq!(monitor.step(Event::Delivered(true), 0), Some(Action::Pace(1000)));
    assert_eq!(monitor.step(Event::Paced, 0), Some(Action::Deliver(message("C"))));
    assert_eq!(monitor.step(Event::Delivered(true), 0), Some(Action::Pace(1000)));
    assert_eq!(monitor.step(Event::Paced, 0), Some(Action::SaveState));
    assert_eq!(monitor.phase(), Phase::Saving);
    assert_eq!(monitor.step(Event::StateSaved(true), 0), Some(Action::AwaitTick(300_000)));
    assert_eq!(monitor.phase(), Phase::Waiting);
    assert_eq!(monitor.step(Event::Ticked, 0), Some(Action::Check));
}

#[test]
fn failed_save_is_not_fatal() {
    let mut monitor = checking();
    assert_eq!(
        monitor.step(Event::Checked(Some(vec![message("A")])), 0),
        Some(Action::Deliver(message("A")))
    );
    assert_eq!(monitor.step(Event::Delivered(true), 0), Some(Action::Pace(1000)));
    assert_eq!(monitor.step(Event::Paced, 0), Some(Action::SaveState));
    assert_eq!(monitor.step(Event::StateSaved(false), 0), Some(Action::AwaitTick(300_000)));
    assert_eq!(monitor.step(Event::Ticked, 0), Some(Action::Check));
}

#[test]
fn event_that_the_phase_does_not_wait_for_changes_nothing() {
    let mut monitor = started();
    assert_eq!(monitor.step(Event::Ticked, 0), None);
    assert_eq!(monitor.step(Event::Checked(None), 0), None);
    assert_eq!(monitor.phase(), Phase::Loading);
    let mut monitor = checking();
    assert_eq!(monitor.step(Event::Checked(Some(vec![message("A"), message("B")])), 0),
        Some(Action::Deliver(message("A"))));
    assert_eq!(monitor.step(Event::Paced, 0), None);
    assert_eq!(monitor.step(Event::Checked(Some(vec![message("Z")])), 0), None);
    assert_eq!(monitor.phase(), Phase::Delivering);
    assert_eq!(monitor.step(Event::Delivered(true), 0), Some(Action::Pace(1000)));
    assert_eq!(monitor.step(Event::Delivered(true), 0), None);
    assert_eq!(monitor.step(Event::Paced, 0), Some(Action::Deliver(message("B"))));
}

#[test]
fn prepare_makes_one_request_for_each_item() {
    let items = vec![
        earthquake::notification_of(feature("A")),
        earthquake::notification_of(feature("B")),
    ];
    let batch = prepare(&items, &cycle_settings("", "Not advice."));
    assert_eq!(batch.len(), 2);
    assert_eq!(batch[0].id, "A");
    assert_eq!(batch[1].id, "B");
    assert_eq!(batch[0].request.url, "https://api.telegram.org/botKEY/sendMessage");
    assert_eq!(batch[0].request.payload.chat_id, "42");
    assert_eq!(batch[0].request.payload.parse_mode, "MarkdownV2");
    assert_eq!(
        batch[0].request.payload.text,
        format!(
            "\u{f0}\u{178}\u{152} *Earthquake Report* \u{f0}\u{178}\u{152}\n\n*Magnitude:* 6\\.00\n*Location:* Sea\n*Time:* Thu Jan  1 00:00:00 1970\n*Map:* [Google Maps](https://www.google.com/maps/place/1,2/@1.0000,2.0000,5z) \\| [Details on USGS](U)\n\n{}\n\nNot advice.",
            "\\-".repeat(20)
        )
    );
    assert_eq!(batch[0].clone(), batch[0]);
}

#[test]
fn failed_delivery_of_the_second_does_not_stop_the_third_nor_forget_the_second() {
    let mut service = earthquake::Service::new(cycle_settings("", ""));
    let now = UnixTime { secs: 0, nanos: 0 };
    let mut monitor = checking();
    let fetched = Fetched::Response {
        status: 200,
        body: Some(vec![Some(feature("A")), Some(feature("B")), Some(feature("C"))]),
    };
    let batch = poll(&mut service, fetched, now).expect("the fetch succeeded");
    let mut delivered: Vec<String> = Vec::new();
    let mut attempted: Vec<String> = Vec::new();
    let mut action = monitor.step(Event::Checked(Some(batch)), 0).expect("a check was under way");
    loop {
        let event = match action {
            Action::Deliver(out) => {
                attempted.push(out.id.clone());
                let ok = out.id != "B";
                if ok {
                    delivered.push(out.id);
                }
                Event::Delivered(ok)
            }
            Action::Pace(_) => Event::Paced,
            Action::SaveState => break,
            other => panic!("no {:?} in the middle of a cycle", other),
        };
        action = monitor.step(event, 0).expect("the event answers the action");
    }
    assert_eq!(attempted, vec!["A", "B", "C"]);
    assert_eq!(delivered, vec!["A", "C"]);
    assert!(service.get_state_manager().is_seen("A"));
    assert!(service.get_state_manager().is_seen("B"));
    assert!(service.get_state_manager().is_seen("C"));
    // the next poll does not alert on the lost message again
    let fetched = Fetched::Response { status: 200, body: Some(vec![Some(feature("B"))]) };
    assert!(poll(&mut service, fetched, now).expect("the fetch succeeded").is_empty());
}

#[test]
fn failed_fetch_gives_no_message_and_no_save() {
    let mut service = earthquake::Service::new(cycle_settings("", ""));
    let now = UnixTime { secs: 0, nanos: 0 };
    let mut monitor = checking();
    let polled = poll(&mut service, Fetched::Failed, now);
    assert_eq!(polled.as_ref().err(), Some(&FetchError::Transport));
    assert_eq!(monitor.step(Event::Checked(polled.ok()), 0), Some(Action::AwaitTick(300_000)));
    assert!(service.save_state().is_empty());
}

#[test]
fn two_cycles_over_the_same_item_alert_once() {
    let mut service = earthquake::Service::new(cycle_settings("", ""));
    let mut monitor = checking();
    let mut x1 = feature("x1");
    x1.time = 1_700_000_000_000;
    let first = poll(
        &mut service,
        Fetched::Response { status: 200, body: Some(vec![Some(x1)]) },
        UnixTime { secs: 1_700_000_000, nanos: 0 },
    )
    .expect("the fetch succeeded");
    assert_eq!(first.len(), 1);
    assert_eq!(first[0].id, "x1");
    let sent = first[0].clone();
    assert_eq!(monitor.step(Event::Checked(Some(first)), 0), Some(Action::Deliver(sent)));
    assert_eq!(monitor.step(Event::Delivered(true), 0), Some(Action::Pace(1000)));
    assert_eq!(monitor.step(Event::Paced, 0), Some(Action::SaveState));
    assert_eq!(monitor.step(Event::StateSaved(true), 0), Some(Action::AwaitTick(300_000)));
    assert_eq!(monitor.step(Event::Ticked, 0), Some(Action::Check));
    let mut again = feature("x1");
    again.time = 1_700_000_000_000;
    again.place = "Sea, revised".to_string();
    let second = poll(
        &mut service,
        Fetched::Response { status: 200, body: Some(vec![Some(again)]) },
        UnixTime { secs: 1_700_000_300, nanos: 0 },
    )
    .expect("the fetch succeeded");
    assert!(second.is_empty());
    assert_eq!(monitor.step(Event::Checked(Some(second)), 0), Some(Action::AwaitTick(600_000)));
}

#[test]
fn second_cycle_waits_for_the_first_tick_one_interval_after_the_start() {
    let (mut monitor, first) = Monitor::start(300, 5_000);
    assert_eq!(first, Action::LoadState);
    assert_eq!(monitor.step(Event::StateLoaded(true), 5_010), Some(Action::Check));
    // the first cycle took two seconds: the tick is 298 seconds away
    assert_eq!(monitor.step(Event::Checked(None), 7_000), Some(Action::AwaitTick(298_000)));
    assert_eq!(monitor.step(Event::Ticked, 305_000), Some(Action::Check));
    // the next tick is one interval after the first
    assert_eq!(
        monitor.step(Event::Checked(Some(Vec::new())), 305_500),
        Some(Action::AwaitTick(299_500))
    );
    assert_eq!(monitor.step(Event::Ticked, 605_000), Some(Action::Check));
}

#[test]
fn missed_tick_comes_at_once_and_is_not_made_up_for() {
    let (mut monitor, _) = Monitor::start(10, 0);
    assert_eq!(monitor.step(Event::StateLoaded(true), 0), Some(Action::Check));
    // the cycle ran past two ticks
    assert_eq!(
        monitor.step(Event::Checked(Some(vec![message("A")])), 1_000),
        Some(Action::Deliver(message("A")))
    );
    assert_eq!(monitor.step(Event::Delivered(true), 24_000), Some(Action::Pace(1000)));
    assert_eq!(monitor.step(Event::Paced, 25_000), Some(Action::SaveState));
    assert_eq!(monitor.step(Event::StateSaved(true), 25_500), Some(Action::AwaitTick(0)));
    assert_eq!(monitor.step(Event::Ticked, 25_500), Some(Action::Check));
    // one check follows, and the tick after it is one interval after the late one
    assert_eq!(monitor.step(Event::Checked(None), 26_000), Some(Action::AwaitTick(9_500)));
    assert_eq!(monitor.step(Event::Ticked, 35_500), Some(Action::Check));
    assert_eq!(monitor.step(Event::Checked(None), 35_500), Some(Action::AwaitTick(10_000)));
}

#[test]
fn wait_at_the_tick_itself_is_nothing() {
    let (mut monitor, _) = Monitor::start(10, 0);
    assert_eq!(monitor.step(Event::StateLoaded(true), 0), Some(Action::Check));
    assert_eq!(monitor.step(Event::Checked(None), 10_000), Some(Action::AwaitTick(0)));
    assert_eq!(monitor.step(Event::Ticked, 10_000), Some(Action::Check));
    assert_eq!(monitor.step(Event::Checked(None), 10_001), Some(Action::AwaitTick(9_999)));
}

#[test]
fn times_at_the_end_of_the_clock_do_not_overflow() {
    let (mut monitor, _) = Monitor::start(u64::MAX, u64::MAX - 5);
    assert_eq!(monitor.step(Event::StateLoaded(true), u64::MAX - 5), Some(Action::Check));
    assert_eq!(monitor.step(Event::Checked(None), u64::MAX - 4), Some(Action::AwaitTick(4)));
    assert_eq!(monitor.step(Event::Ticked, u64::MAX), Some(Action::Check));
    assert_eq!(monitor.step(Event::Checked(None), u64::MAX), Some(Action::AwaitTick(0)));
    let (mut monitor, _) = Monitor::start(0, 7);
    assert_eq!(monitor.step(Event::StateLoaded(true), 7), Some(Action::Check));
    assert_eq!(monitor.step(Event::Checked(None), 7), Some(Action::AwaitTick(0)));
}
