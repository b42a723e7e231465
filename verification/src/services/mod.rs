//! Alert sources: the capability every source offers, and the rule that turns
//! the items of one fetch into the alerts of one cycle.

use vstd::prelude::*;

use crate::config::ServiceConfig;
use crate::state::{is_snapshot_of, load_outcome, loaded, Entry, LoadError, Manager, Snapshot};
use crate::time::UnixTime;

pub mod dedup;
pub mod earthquake;
pub mod rocketlaunch;
pub mod spaceweather;

verus! {

/// One alert-worthy event of a source.
pub trait Notification: Sized {
    /// The identifier, stable across polls for the same event.
    spec fn unique_id(&self) -> Seq<char>;

    /// The event's own time in seconds since the Unix epoch.
    spec fn timestamp(&self) -> i64;

    /// The message text of the event.
    spec fn message(&self) -> Seq<char>;

    fn get_unique_id(&self) -> (r: &str)
        ensures
            r@ == self.unique_id(),
    ;

    fn get_timestamp(&self) -> (r: i64)
        ensures
            r == self.timestamp(),
    ;

    fn format_message(&self) -> (r: String)
        ensures
            r@ == self.message(),
    ;
}

/// What the rest of the pipeline reads of an item: identifier, time and
/// message text.
pub struct Alert {
    pub id: Seq<char>,
    pub timestamp: i64,
    pub message: Seq<char>,
}

/// The alert that an item stands for.
pub open spec fn alert_of<N: Notification>() -> spec_fn(N) -> Alert {
    |n: N| Alert { id: n.unique_id(), timestamp: n.timestamp(), message: n.message() }
}

/// Identifier and time of an alert.
pub open spec fn alert_key() -> spec_fn(Alert) -> (Seq<char>, i64) {
    |a: Alert| (a.id, a.timestamp)
}

/// Why a fetch produced no items.
#[derive(Debug, Clone, Copy, PartialEq, Eq, Structural)]
pub enum FetchError {
    /// The request did not complete.
    Transport,
    /// The remote side answered with a status that the source does not accept.
    Status(u16),
    /// The response did not have the expected shape.
    Format,
}

/// What one request to a remote source came back with.
pub enum Fetched<C> {
    /// The request did not complete.
    Failed,
    /// A response arrived: its status, and the entries of its body in order,
    /// or `None` where the body as a whole could not be decoded. An entry is
    /// the candidate decoded from it, or `None` where that one entry could
    /// not be decoded.
    Response { status: u16, body: Option<Vec<Option<C>>> },
}

/// Identifier and time of an item.
pub open spec fn key_of<N: Notification>() -> spec_fn(N) -> (Seq<char>, i64) {
    |n: N| (n.unique_id(), n.timestamp())
}

/// Keeps the items of `items` that `store` has not seen, in order, and records
/// each of them in `store`. An identifier that occurs twice in `items` is kept
/// once, at its first place.
pub fn collect_new<N: Notification>(store: &mut Manager, items: Vec<N>) -> (r: Vec<N>)
    requires
        old(store).wf(),
    ensures
        final(store).wf(),
        r@ == dedup::new_items(old(store)@, items@, key_of::<N>()),
        final(store)@ == dedup::store_after(old(store)@, items@.map_values(key_of::<N>())),
        final(store).path() == old(store).path(),
        final(store).retention() == old(store).retention(),
{
    let mut out: Vec<N> = Vec::new();
    let ghost seen = store@;
    let ghost all = items@;
    let ghost key = key_of::<N>();
    for n in iter: items.into_iter()
        invariant
            iter.seq() == all,
            key == key_of::<N>(),
            store.wf(),
            store.path() == old(store).path(),
            store.retention() == old(store).retention(),
            out@ == dedup::new_items(seen, all.take(iter.index()), key),
            store@ == dedup::store_after(seen, all.take(iter.index()).map_values(key)),
    {
        proof {
            let i = iter.index();
            assert(all.take(i + 1).drop_last() == all.take(i));
            assert(all.take(i + 1).map_values(key).drop_last() == all.take(i).map_values(key));
            assert(all.take(i + 1).last() == n);
        }
        if !store.is_seen(n.get_unique_id()) {
            let id = n.get_unique_id().to_owned();
            store.add(id, n.get_timestamp());
            out.push(n);
        }
    }
    proof {
        assert(all.take(all.len() as int) == all);
    }
    out
}

/// Why a fetch yields no items, if it does not: the request failed, the status
/// is not accepted, or the body could not be decoded, looked at in this order.
pub open spec fn fetch_error<C>(fetched: Fetched<C>, accepted: spec_fn(u16) -> bool) -> Option<
    FetchError,
> {
    match fetched {
        Fetched::Failed => Some(FetchError::Transport),
        Fetched::Response { status, body } => if !accepted(status) {
            Some(FetchError::Status(status))
        } else if body is None {
            Some(FetchError::Format)
        } else {
            None
        },
    }
}

/// The entries of a fetch that brought any.
pub open spec fn entries_of<C>(fetched: Fetched<C>) -> Seq<Option<C>> {
    match fetched {
        Fetched::Response { status, body: Some(entries) } => entries@,
        _ => Seq::<Option<C>>::empty(),
    }
}

/// The alert that an entry of a response stands for: that of its candidate,
/// and none for an entry that could not be decoded.
pub open spec fn entry_alert<C>(alert: spec_fn(C) -> Option<Alert>) -> spec_fn(Option<C>) -> Option<
    Alert,
> {
    |entry: Option<C>|
        match entry {
            Some(candidate) => alert(candidate),
            None => None,
        }
}

/// A pluggable source of alerts. It owns the store of what it has alerted on.
///
/// A source says which statuses it accepts and what a candidate becomes. The
/// cycle, loading and saving are the same for every source.
pub trait NotificationService: Sized {
    /// One decoded item of the remote response.
    type Candidate;

    /// The alert item of this source.
    type Item: Notification;

    /// The name of the source.
    spec fn label(&self) -> Seq<char>;

    /// The settings of the source.
    spec fn settings(&self) -> ServiceConfig;

    /// The store of the source.
    spec fn manager(&self) -> Manager;

    /// Whether the source takes a response with this status for an answer.
    spec fn accepts(&self, status: u16) -> bool;

    /// The alert that a candidate stands for when fetched at `now`, or `None`
    /// where the source passes it over.
    spec fn alert(&self, candidate: Self::Candidate, now: UnixTime) -> Option<Alert>;

    fn name(&self) -> (r: &str)
        ensures
            r@ == self.label(),
    ;

    fn get_config(&self) -> (r: &ServiceConfig)
        ensures
            *r == self.settings(),
    ;

    fn get_state_manager(&self) -> (r: &Manager)
        ensures
            *r == self.manager(),
    ;

    /// The store, for changing it. Nothing else of the source changes with it.
    fn state_manager_mut(&mut self) -> (r: &mut Manager)
        ensures
            *r == old(self).manager(),
            final(self).manager() == *final(r),
            final(self).label() == old(self).label(),
            final(self).settings() == old(self).settings(),
    ;

    /// Whether the source takes a response with this status for an answer.
    fn accepts_status(&self, status: u16) -> (r: bool)
        ensures
            r == self.accepts(status),
    ;

    /// The alert item for a candidate fetched at `now`, or nothing where the
    /// source passes the candidate over.
    fn screen_candidate(&self, candidate: Self::Candidate, now: UnixTime) -> (r: Option<Self::Item>)
        ensures
            match r {
                Some(item) => self.alert(candidate, now) == Some(alert_of::<Self::Item>()(item)),
                None => self.alert(candidate, now) is None,
            },
    ;

    /// Turns what one fetch came back with into the alerts of this cycle.
    ///
    /// A failed fetch is an error and leaves the store as it is. Otherwise an
    /// entry that could not be decoded is passed over, and each candidate that
    /// the source does not pass over, and whose identifier the store does not
    /// hold, is emitted and recorded in the store at once.
    fn check_for_notifications(&mut self, fetched: Fetched<Self::Candidate>, now: UnixTime) -> (r:
        Result<Vec<Self::Item>, FetchError>)
        requires
            old(self).manager().wf(),
        ensures
            final(self).manager().wf(),
            final(self).label() == old(self).label(),
            final(self).settings() == old(self).settings(),
            final(self).manager().path() == old(self).manager().path(),
            final(self).manager().retention() == old(self).manager().retention(),
            match r {
                Err(e) => fetch_error(fetched, |s: u16| old(self).accepts(s)) == Some(e)
                    && final(self).manager()@ == old(self).manager()@,
                Ok(items) => {
                    let offered = entries_of(fetched).filter_map(
                        entry_alert(|c: Self::Candidate| old(self).alert(c, now)),
                    );
                    &&& fetch_error(fetched, |s: u16| old(self).accepts(s)) is None
                    &&& items@.map_values(alert_of::<Self::Item>()) == dedup::new_items(
                        old(self).manager()@,
                        offered,
                        alert_key(),
                    )
                    &&& final(self).manager()@ == dedup::store_after(
                        old(self).manager()@,
                        offered.map_values(alert_key()),
                    )
                },
            },
    {
        let entries = match fetched {
            Fetched::Failed => { return Err(FetchError::Transport); },
            Fetched::Response { status, body } => {
                if !self.accepts_status(status) {
                    return Err(FetchError::Status(status));
                }
                match body {
                    Some(entries) => entries,
                    None => { return Err(FetchError::Format); },
                }
            },
        };
        let ghost source = *self;
        let ghost all = entries@;
        let ghost alert = entry_alert(|c: Self::Candidate| source.alert(c, now));
        let mut admitted: Vec<Self::Item> = Vec::new();
        for entry in iter: entries.into_iter()
            invariant
                iter.seq() == all,
                *self == source,
                alert == entry_alert(|c: Self::Candidate| source.alert(c, now)),
                admitted@.map_values(alert_of::<Self::Item>()) == all.take(
                    iter.index(),
                ).filter_map(alert),
        {
            proof {
                all.lemma_filter_map_take_succ(alert, iter.index());
            }
            match entry {
                Some(candidate) => match self.screen_candidate(candidate, now) {
                    Some(item) => {
                        admitted.push(item);
                    },
                    None => {},
                },
                None => {},
            }
        }
        proof {
            assert(all.take(all.len() as int) == all);
            dedup::lemma_new_items_map(
                source.manager()@,
                admitted@,
                alert_of::<Self::Item>(),
                key_of::<Self::Item>(),
                alert_key(),
            );
        }
        Ok(collect_new(self.state_manager_mut(), admitted))
    }

    /// Takes in what reading the durable snapshot came back with.
    fn load_state(&mut self, snapshot: Snapshot, now: u64) -> (r: Result<(), LoadError>)
        requires
            old(self).manager().wf(),
        ensures
            final(self).manager().wf(),
            final(self).label() == old(self).label(),
            final(self).settings() == old(self).settings(),
            final(self).manager().path() == old(self).manager().path(),
            final(self).manager().retention() == old(self).manager().retention(),
            r == load_outcome(snapshot),
            final(self).manager()@ == loaded(
                old(self).manager()@,
                snapshot,
                now,
                old(self).manager().retention(),
            ),
    {
        self.state_manager_mut().load(snapshot, now)
    }

    /// The records to write as the durable snapshot.
    fn save_state(&self) -> (r: Vec<Entry>)
        requires
            self.manager().wf(),
        ensures
            is_snapshot_of(r@, self.manager()@),
    {
        self.get_state_manager().save()
    }
}

} // verus!
