//! Dispatcher: what is sent for each alert of a cycle.

use vstd::prelude::*;
use vstd::string::StringExecFns;

use crate::config::ServiceConfig;
use crate::services::dedup;
use crate::services::{
    alert_key, alert_of, entries_of, entry_alert, fetch_error, Alert, FetchError, Fetched, Notification,
    NotificationService,
};
use crate::telegram::{escape_markdown, escaped, is_request_for, Request, Sender};
use crate::time::UnixTime;

verus! {

/// The block that follows the message text: a separator where there is a
/// support link or a disclaimer, then the line of the support link, then the
/// disclaimer.
pub open spec fn footer(support_link: Seq<char>, disclaimer: Seq<char>) -> Seq<char> {
    (if support_link.len() > 0 || disclaimer.len() > 0 {
        "\n\n"@ + escaped("--------------------"@)
    } else {
        Seq::<char>::empty()
    }) + (if support_link.len() > 0 {
        "\n\n*Like this service?*"@ + "\n[Buy Me a Coffee \u{e2}\u{2dc}\u{2022}]("@ + support_link
            + ")"@
    } else {
        Seq::<char>::empty()
    }) + (if disclaimer.len() > 0 {
        "\n\n"@ + disclaimer
    } else {
        Seq::<char>::empty()
    })
}

/// The text to send for a message `base` of a source with the settings
/// `config`.
pub fn compose_message(base: String, config: &ServiceConfig) -> (r: String)
    ensures
        r@ == base@ + footer(config.buymeacoffee_url@, config.disclaimer@),
{
    let mut full_message = base;
    let link = config.buymeacoffee_url.as_str();
    let disclaimer = config.disclaimer.as_str();
    let ghost start = full_message@;
    if !link.is_empty() || !disclaimer.is_empty() {
        full_message.append("\n\n");
        full_message.append(escape_markdown("--------------------").as_str());
    }
    if !link.is_empty() {
        full_message.append("\n\n*Like this service?*");
        full_message.append("\n[Buy Me a Coffee \u{e2}\u{2dc}\u{2022}](");
        full_message.append(link);
        full_message.append(")");
    }
    if !disclaimer.is_empty() {
        full_message.append("\n\n");
        full_message.append(disclaimer);
    }
    proof {
        assert(full_message@ =~= start + footer(config.buymeacoffee_url@, config.disclaimer@));
    }
    full_message
}

/// One message on its way out: the identifier of the alert it is about, and
/// the request that delivers it.
#[derive(Debug, PartialEq, Eq)]
pub struct Outgoing {
    pub id: String,
    pub request: Request,
}

impl Clone for Outgoing {
    fn clone(&self) -> (r: Outgoing)
        ensures
            r == *self,
    {
        Outgoing { id: self.id.clone(), request: self.request.clone() }
    }
}

/// Whether `out` delivers `alert` for a source with the settings `config`.
pub open spec fn delivers(out: Outgoing, alert: Alert, config: ServiceConfig) -> bool {
    &&& out.id@ == alert.id
    &&& is_request_for(
        out.request,
        config.telegram_api_key@,
        config.telegram_chat_id@,
        alert.message + footer(config.buymeacoffee_url@, config.disclaimer@),
    )
}

/// Whether `batch` delivers the alerts of `alerts`, one message each, in
/// order.
pub open spec fn delivers_all(batch: Seq<Outgoing>, alerts: Seq<Alert>, config: ServiceConfig) -> bool {
    &&& batch.len() == alerts.len()
    &&& forall|i: int| 0 <= i < batch.len() ==> delivers(#[trigger] batch[i], alerts[i], config)
}

/// The messages to send for the items of a cycle, in order.
pub fn prepare<N: Notification>(items: &Vec<N>, config: &ServiceConfig) -> (r: Vec<Outgoing>)
    ensures
        delivers_all(r@, items@.map_values(alert_of::<N>()), *config),
{
    let sender = Sender::new(config.telegram_api_key.clone(), config.telegram_chat_id.clone());
    let mut batch: Vec<Outgoing> = Vec::new();
    let mut i: usize = 0;
    while i < items.len()
        invariant
            i <= items.len(),
            sender.key() == config.telegram_api_key@,
            sender.chat() == config.telegram_chat_id@,
            batch@.len() == i,
            forall|j: int|
                0 <= j < i ==> delivers(#[trigger] batch@[j], alert_of::<N>()(items@[j]), *config),
        decreases items.len() - i,
    {
        let text = compose_message(items[i].format_message(), config);
        let id = items[i].get_unique_id().to_owned();
        batch.push(Outgoing { id, request: sender.request(text.as_str()) });
        i += 1;
    }
    batch
}

/// One check of a source: turns what the fetch came back with into the
/// messages of this cycle. A failed fetch gives an error and no message.
pub fn poll<S: NotificationService>(service: &mut S, fetched: Fetched<S::Candidate>, now: UnixTime) -> (r:
    Result<Vec<Outgoing>, FetchError>)
    requires
        old(service).manager().wf(),
    ensures
        final(service).manager().wf(),
        final(service).label() == old(service).label(),
        final(service).settings() == old(service).settings(),
        final(service).manager().path() == old(service).manager().path(),
        final(service).manager().retention() == old(service).manager().retention(),
        match r {
            Err(e) => fetch_error(fetched, |s: u16| old(service).accepts(s)) == Some(e)
                && final(service).manager()@ == old(service).manager()@,
            Ok(batch) => {
                let offered = entries_of(fetched).filter_map(
                    entry_alert(|c: S::Candidate| old(service).alert(c, now)),
                );
                &&& fetch_error(fetched, |s: u16| old(service).accepts(s)) is None
                &&& delivers_all(
                    batch@,
                    dedup::new_items(old(service).manager()@, offered, alert_key()),
                    old(service).settings(),
                )
                &&& final(service).manager()@ == dedup::store_after(
                    old(service).manager()@,
                    offered.map_values(alert_key()),
                )
            },
        },
{
    match service.check_for_notifications(fetched, now) {
        Ok(items) => Ok(prepare(&items, service.get_config())),
        Err(e) => Err(e),
    }
}

} // verus!
