//! The main loop's update rules: how each dequeued event changes the
//! application state, together with the laws the status store obeys.

use vstd::prelude::*;
use crate::app::{App, AppView, HostStatus};
use crate::event::{ConnectionEvent, Event, KeyCode, KeyPress, LoadEvent};

verus! {

/// Does this key press ask the application to quit?
pub open spec fn quit_requested(key: KeyPress) -> bool {
    match key.code {
        KeyCode::Esc => true,
        KeyCode::Char(c) => c == 'q' || ((c == 'c' || c == 'C') && key.ctrl),
        _ => false,
    }
}

/// The state a key press turns `v` into: quit keys clear the running flag,
/// the arrow keys move the counter, everything else changes nothing.
pub open spec fn spec_handle_key(v: AppView, key: KeyPress) -> AppView {
    if quit_requested(key) {
        AppView { running: false, ..v }
    } else if key.code is Right {
        AppView {
            counter: if v.counter == u8::MAX {
                u8::MAX
            } else {
                (v.counter + 1) as u8
            },
            ..v
        }
    } else if key.code is Left {
        AppView {
            counter: if v.counter == 0 {
                0u8
            } else {
                (v.counter - 1) as u8
            },
            ..v
        }
    } else {
        v
    }
}

/// The state a connection-lifecycle event of `host` turns `v` into.
pub open spec fn spec_handle_connection(v: AppView, host: Seq<char>, ev: ConnectionEvent) -> AppView {
    match ev {
        ConnectionEvent::Connecting => AppView {
            hosts: v.hosts.insert(host, HostStatus::Connecting),
            ..v
        },
        ConnectionEvent::Connected => v,
        ConnectionEvent::ConnectionError(reason) => AppView {
            hosts: v.hosts.insert(host, HostStatus::Down(reason@)),
            ..v
        },
    }
}

/// The state a sampling outcome of `host` turns `v` into.
pub open spec fn spec_handle_load(v: AppView, host: Seq<char>, ev: LoadEvent) -> AppView {
    match ev {
        LoadEvent::Load(load) => AppView { hosts: v.hosts.insert(host, HostStatus::Up(load@)), ..v },
        LoadEvent::LoadError(reason) => AppView {
            hosts: v.hosts.insert(host, HostStatus::Down(reason@)),
            ..v
        },
    }
}

/// The state one aggregated event turns `v` into.
pub open spec fn spec_apply_event(v: AppView, ev: Event) -> AppView {
    match ev {
        Event::Tick => v,
        Event::Key(key) => spec_handle_key(v, key),
        Event::Mouse => v,
        Event::Resize(_, _) => v,
        Event::HostStatus(host, conn) => spec_handle_connection(v, host@, conn),
        Event::LoadStatus(host, load) => spec_handle_load(v, host@, load),
    }
}

/// Handles the key events and updates the state of [`App`].
pub fn handle_key_events(key_event: KeyPress, app: &mut App)
    ensures
        final(app)@ == spec_handle_key(old(app)@, key_event),
{
    match key_event.code {
        // Exit application on `ESC` or `q`
        KeyCode::Esc => {
            app.quit();
        },
        KeyCode::Char(c) => {
            if c == 'q' {
                app.quit();
            } else if (c == 'c' || c == 'C') && key_event.ctrl {
                // Exit application on `Ctrl-C`
                app.quit();
            }
        },
        // Counter handlers
        KeyCode::Right => {
            app.increment_counter();
        },
        KeyCode::Left => {
            app.decrement_counter();
        },
        // Other handlers you could add here.
        KeyCode::Other => {},
    }
}

/// Handles a connection-lifecycle event and updates the state of [`App`].
pub fn handle_host_events(host: &str, event: ConnectionEvent, app: &mut App)
    ensures
        final(app)@ == spec_handle_connection(old(app)@, host@, event),
{
    match event {
        ConnectionEvent::Connected => {},
        ConnectionEvent::Connecting => app.set_host_connecting(host),
        ConnectionEvent::ConnectionError(error) => app.set_host_error(host, error.as_str()),
    }
}

/// Handles a sampling outcome and updates the state of [`App`].
pub fn handle_load_events(host: &str, event: LoadEvent, app: &mut App)
    ensures
        final(app)@ == spec_handle_load(old(app)@, host@, event),
{
    match event {
        LoadEvent::Load(status) => app.set_host_status(host, status.as_str()),
        LoadEvent::LoadError(error) => app.set_host_error(host, error.as_str()),
    }
}

/// Applies one aggregated event to the application state: the body of the
/// main loop, between dequeueing and rendering.
pub fn apply_event(event: Event, app: &mut App)
    ensures
        final(app)@ == spec_apply_event(old(app)@, event),
{
    match event {
        Event::Tick => app.tick(),
        Event::Key(key_event) => handle_key_events(key_event, app),
        Event::Mouse => {},
        Event::Resize(_, _) => {},
        Event::HostStatus(host, ev) => handle_host_events(host.as_str(), ev, app),
        Event::LoadStatus(host, ev) => handle_load_events(host.as_str(), ev, app),
    }
}

/// The state a whole sequence of events turns `v` into, first event first.
pub open spec fn spec_apply_events(v: AppView, evs: Seq<Event>) -> AppView
    decreases evs.len(),
{
    if evs.len() == 0 {
        v
    } else {
        spec_apply_events(spec_apply_event(v, evs[0]), evs.drop_first())
    }
}

/// Does this event speak only of hosts in `allowed`, or of no host at all?
pub open spec fn event_mentions_only(ev: Event, allowed: Set<Seq<char>>) -> bool {
    match ev {
        Event::HostStatus(host, _) => allowed.contains(host@),
        Event::LoadStatus(host, _) => allowed.contains(host@),
        _ => true,
    }
}

/// One event that speaks only of hosts in `allowed` keeps the store's
/// domain inside `allowed`.
proof fn lemma_apply_event_dom(v: AppView, ev: Event, allowed: Set<Seq<char>>)
    requires
        v.hosts.dom() <= allowed,
        event_mentions_only(ev, allowed),
    ensures
        spec_apply_event(v, ev).hosts.dom() <= allowed,
{
}

/// Law: a host outside the configured set never appears in the store. As
/// long as the store's domain lies inside `allowed` and every processed
/// event speaks only of hosts in `allowed`, the domain stays inside
/// `allowed` — so a hostname no event may mention has no entry, ever.
pub proof fn lemma_unknown_host_never_appears(v: AppView, evs: Seq<Event>, allowed: Set<Seq<char>>)
    requires
        v.hosts.dom() <= allowed,
        forall|i: int| 0 <= i < evs.len() ==> event_mentions_only(#[trigger] evs[i], allowed),
    ensures
        spec_apply_events(v, evs).hosts.dom() <= allowed,
        forall|h: Seq<char>|
            !allowed.contains(h) ==> !spec_apply_events(v, evs).hosts.contains_key(h),
    decreases evs.len(),
{
    if evs.len() > 0 {
        lemma_apply_event_dom(v, evs[0], allowed);
        lemma_unknown_host_never_appears(spec_apply_event(v, evs[0]), evs.drop_first(), allowed);
    }
}

/// The status an event assigns to the host named `h`, if it assigns one:
/// `Connected`, `Tick`, input events and events of other hosts assign none.
pub open spec fn event_status_for(ev: Event, h: Seq<char>) -> Option<HostStatus> {
    match ev {
        Event::HostStatus(host, ConnectionEvent::Connecting) => if host@ == h {
            Some(HostStatus::Connecting)
        } else {
            None
        },
        Event::HostStatus(host, ConnectionEvent::ConnectionError(reason)) => if host@ == h {
            Some(HostStatus::Down(reason@))
        } else {
            None
        },
        Event::LoadStatus(host, LoadEvent::Load(load)) => if host@ == h {
            Some(HostStatus::Up(load@))
        } else {
            None
        },
        Event::LoadStatus(host, LoadEvent::LoadError(reason)) => if host@ == h {
            Some(HostStatus::Down(reason@))
        } else {
            None
        },
        _ => None,
    }
}

/// The status the most recent assigning event of `h` carries, if any event
/// of `evs` assigns `h` one.
pub open spec fn last_status(evs: Seq<Event>, h: Seq<char>) -> Option<HostStatus>
    decreases evs.len(),
{
    if evs.len() == 0 {
        None
    } else if event_status_for(evs.last(), h) is Some {
        event_status_for(evs.last(), h)
    } else {
        last_status(evs.drop_last(), h)
    }
}

/// Applying events and then one more is applying the extended sequence.
proof fn lemma_apply_events_snoc(v: AppView, evs: Seq<Event>, ev: Event)
    ensures
        spec_apply_events(v, evs.push(ev)) == spec_apply_event(spec_apply_events(v, evs), ev),
    decreases evs.len(),
{
    if evs.len() == 0 {
        assert(evs.push(ev)[0] == ev);
        assert(evs.push(ev).drop_first() =~= Seq::<Event>::empty());
        assert(spec_apply_events(v, evs.push(ev)) == spec_apply_events(
            spec_apply_event(v, ev),
            Seq::<Event>::empty(),
        ));
        assert(spec_apply_events(spec_apply_event(v, ev), Seq::<Event>::empty())
            == spec_apply_event(v, ev));
    } else {
        assert(evs.push(ev)[0] == evs[0]);
        assert(evs.push(ev).drop_first() =~= evs.drop_first().push(ev));
        lemma_apply_events_snoc(spec_apply_event(v, evs[0]), evs.drop_first(), ev);
        assert(spec_apply_events(v, evs.push(ev)) == spec_apply_events(
            spec_apply_event(v, evs[0]),
            evs.drop_first().push(ev),
        ));
        assert(spec_apply_events(v, evs) == spec_apply_events(
            spec_apply_event(v, evs[0]),
            evs.drop_first(),
        ));
    }
}

/// An event that assigns `h` a status puts exactly that status in the store;
/// one that assigns none leaves `h`'s entry as it was.
proof fn lemma_apply_event_status(v: AppView, ev: Event, h: Seq<char>)
    ensures
        event_status_for(ev, h) matches Some(st) ==> spec_apply_event(v, ev).hosts.contains_key(h)
            && spec_apply_event(v, ev).hosts[h] == st,
        event_status_for(ev, h) is None ==> (spec_apply_event(v, ev).hosts.contains_key(h)
            <==> v.hosts.contains_key(h)) && (v.hosts.contains_key(h) ==> spec_apply_event(
            v,
            ev,
        ).hosts[h] == v.hosts[h]),
{
}

/// Law: the store holds the most recently emitted status, overwritten and
/// never merged. After processing `evs`, the entry of a host is the status
/// the last event assigning that host carried; if no event assigned it one,
/// the entry is untouched.
pub proof fn lemma_store_holds_latest_status(v: AppView, evs: Seq<Event>, h: Seq<char>)
    ensures
        last_status(evs, h) matches Some(st) ==> spec_apply_events(v, evs).hosts.contains_key(h)
            && spec_apply_events(v, evs).hosts[h] == st,
        last_status(evs, h) is None ==> (spec_apply_events(v, evs).hosts.contains_key(h)
            <==> v.hosts.contains_key(h)) && (v.hosts.contains_key(h) ==> spec_apply_events(
            v,
            evs,
        ).hosts[h] == v.hosts[h]),
    decreases evs.len(),
{
    if evs.len() > 0 {
        let init = evs.drop_last();
        let last = evs.last();
        assert(init.push(last) =~= evs);
        lemma_apply_events_snoc(v, init, last);
        lemma_store_holds_latest_status(v, init, h);
        lemma_apply_event_status(spec_apply_events(v, init), last, h);
    }
}

/// Law: a connection error overwrites whatever was there. After processing
/// `HostStatus(host, ConnectionError(reason))` the store maps `host` to
/// `Down(reason)`, regardless of its prior state.
pub proof fn lemma_connection_error_sets_down(v: AppView, host: String, reason: String)
    ensures
        spec_apply_event(
            v,
            Event::HostStatus(host, ConnectionEvent::ConnectionError(reason)),
        ).hosts.contains_key(host@),
        spec_apply_event(v, Event::HostStatus(host, ConnectionEvent::ConnectionError(reason))).hosts[host@]
            == HostStatus::Down(reason@),
{
}

/// Law: the last write wins. Applying a sample for `host` and then a
/// sampling error for `host` leaves the store mapping `host` to the error
/// alone; nothing of the sample survives.
pub proof fn lemma_sample_then_error_is_down(
    v: AppView,
    host: String,
    sample: String,
    reason: String,
)
    ensures
        ({
            let after_sample = spec_apply_event(v, Event::LoadStatus(host, LoadEvent::Load(sample)));
            let after_error = spec_apply_event(
                after_sample,
                Event::LoadStatus(host, LoadEvent::LoadError(reason)),
            );
            after_error.hosts.contains_key(host@) && after_error.hosts[host@] == HostStatus::Down(
                reason@,
            )
        }),
{
}

} // verus!
