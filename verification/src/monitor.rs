//! The per-host monitor: the state machine that drives one host's
//! connect/retry cycle and its periodic sampling, and decides which event
//! each outcome puts on the aggregated stream.
//!
//! The monitor owns no session itself: the task that runs it holds the real
//! session handle and keeps it in step with [`MonitorState`] — a handle
//! exists exactly while the state is `Connected`. Each tick the task asks
//! [`HostMonitor::on_tick`] what to do, performs the connect attempt or the
//! poll, and hands the outcome back through [`HostMonitor::on_connect_outcome`]
//! or [`HostMonitor::on_poll_outcome`], which answer with the event to emit.

use vstd::prelude::*;
use crate::event::{ConnectionEvent, Event, LoadEvent};

verus! {

/// The connection lifecycle of one host, as the monitor tracks it.
#[derive(Clone, Copy, Debug, PartialEq, Eq)]
pub enum MonitorState {
    /// No usable session; the next tick attempts to connect.
    Disconnected,
    /// A session is usable; the next tick polls the load metric.
    Connected,
}

/// What the monitor's task should do on the current tick.
#[derive(Clone, Copy, Debug, PartialEq, Eq)]
pub enum MonitorAction {
    /// Attempt to open an authenticated session to the host.
    Connect,
    /// Open a command channel and run the metric command.
    Poll,
}

/// How a connection attempt ended.
#[derive(Clone, Debug, PartialEq, Eq)]
pub enum ConnectOutcome {
    /// A session is now open and authenticated.
    Connected,
    /// The attempt failed; carries the cause.
    Failed(String),
}

/// How one poll of the metric command ended.
#[derive(Clone, Debug, PartialEq, Eq)]
pub enum PollOutcome {
    /// The command ran to completion: exit code, stdout, stderr.
    Completed(u32, String, String),
    /// A command channel could not be opened, but the session may still be
    /// usable; carries the cause.
    ChannelFailed(String),
    /// The session itself is gone; carries the cause. The monitor drops back
    /// to `Disconnected` and the task must discard its session handle.
    SessionLost(String),
}

/// The action a monitor in state `st` takes on a tick.
pub open spec fn spec_tick_action(st: MonitorState) -> MonitorAction {
    match st {
        MonitorState::Disconnected => MonitorAction::Connect,
        MonitorState::Connected => MonitorAction::Poll,
    }
}

/// The state a connect outcome leaves the monitor in.
pub open spec fn spec_connect_step(o: ConnectOutcome) -> MonitorState {
    match o {
        ConnectOutcome::Connected => MonitorState::Connected,
        ConnectOutcome::Failed(_) => MonitorState::Disconnected,
    }
}

/// The event a connect outcome of `host` puts on the stream.
pub open spec fn spec_connect_event(host: String, o: ConnectOutcome) -> Event {
    match o {
        ConnectOutcome::Connected => Event::HostStatus(host, ConnectionEvent::Connected),
        ConnectOutcome::Failed(reason) => Event::HostStatus(
            host,
            ConnectionEvent::ConnectionError(reason),
        ),
    }
}

/// The state a poll outcome leaves the monitor in: only the loss of the
/// session itself forces a reconnect.
pub open spec fn spec_poll_step(st: MonitorState, o: PollOutcome) -> MonitorState {
    match o {
        PollOutcome::Completed(_, _, _) => st,
        PollOutcome::ChannelFailed(_) => st,
        PollOutcome::SessionLost(_) => MonitorState::Disconnected,
    }
}

/// The event a poll outcome of `host` puts on the stream: exit code zero is
/// a sample, anything else a sampling error, a lost session a connection
/// error.
pub open spec fn spec_poll_event(host: String, o: PollOutcome) -> Event {
    match o {
        PollOutcome::Completed(code, stdout, stderr) => if code == 0 {
            Event::LoadStatus(host, LoadEvent::Load(stdout))
        } else {
            Event::LoadStatus(host, LoadEvent::LoadError(stderr))
        },
        PollOutcome::ChannelFailed(reason) => Event::LoadStatus(host, LoadEvent::LoadError(reason)),
        PollOutcome::SessionLost(reason) => Event::HostStatus(
            host,
            ConnectionEvent::ConnectionError(reason),
        ),
    }
}

/// The monitor of one host: its name and where it stands in the lifecycle.
#[derive(Debug)]
pub struct HostMonitor {
    host: String,
    state: MonitorState,
}

impl HostMonitor {
    /// The name of the monitored host.
    pub closed spec fn spec_host(&self) -> String {
        self.host
    }

    /// Where the monitor stands in the connection lifecycle.
    pub closed spec fn spec_state(&self) -> MonitorState {
        self.state
    }

    /// A fresh monitor for `host`, disconnected, together with the
    /// `Connecting` event it announces itself with.
    pub fn new(host: String) -> (r: (HostMonitor, Event))
        ensures
            r.0.spec_host() == host,
            r.0.spec_state() is Disconnected,
            r.1 == Event::HostStatus(host, ConnectionEvent::Connecting),
    {
        let announce = Event::HostStatus(host.clone(), ConnectionEvent::Connecting);
        (HostMonitor { host, state: MonitorState::Disconnected }, announce)
    }

    /// What to do on this tick: connect while disconnected, poll while
    /// connected.
    pub fn on_tick(&self) -> (a: MonitorAction)
        ensures
            a == spec_tick_action(self.spec_state()),
    {
        match self.state {
            MonitorState::Disconnected => MonitorAction::Connect,
            MonitorState::Connected => MonitorAction::Poll,
        }
    }

    /// Digest the outcome of a connect attempt: move to the state it leaves
    /// the monitor in and answer with the event to emit.
    pub fn on_connect_outcome(&mut self, outcome: ConnectOutcome) -> (ev: Event)
        ensures
            final(self).spec_host() == old(self).spec_host(),
            final(self).spec_state() == spec_connect_step(outcome),
            ev == spec_connect_event(old(self).spec_host(), outcome),
    {
        match outcome {
            ConnectOutcome::Connected => {
                self.state = MonitorState::Connected;
                Event::HostStatus(self.host.clone(), ConnectionEvent::Connected)
            },
            ConnectOutcome::Failed(reason) => {
                self.state = MonitorState::Disconnected;
                Event::HostStatus(self.host.clone(), ConnectionEvent::ConnectionError(reason))
            },
        }
    }

    /// Digest the outcome of one poll: move to the state it leaves the
    /// monitor in and answer with the event to emit.
    pub fn on_poll_outcome(&mut self, outcome: PollOutcome) -> (ev: Event)
        ensures
            final(self).spec_host() == old(self).spec_host(),
            final(self).spec_state() == spec_poll_step(old(self).spec_state(), outcome),
            ev == spec_poll_event(old(self).spec_host(), outcome),
    {
        match outcome {
            PollOutcome::Completed(code, stdout, stderr) => {
                if code == 0 {
                    Event::LoadStatus(self.host.clone(), LoadEvent::Load(stdout))
                } else {
                    Event::LoadStatus(self.host.clone(), LoadEvent::LoadError(stderr))
                }
            },
            PollOutcome::ChannelFailed(reason) => {
                Event::LoadStatus(self.host.clone(), LoadEvent::LoadError(reason))
            },
            PollOutcome::SessionLost(reason) => {
                self.state = MonitorState::Disconnected;
                Event::HostStatus(self.host.clone(), ConnectionEvent::ConnectionError(reason))
            },
        }
    }
}

/// One tick of a monitor's task, seen from outside: while disconnected the
/// tick's connect outcome counts, while connected its poll outcome.
pub open spec fn spec_machine_step(
    host: String,
    st: MonitorState,
    tick: (ConnectOutcome, PollOutcome),
) -> (MonitorState, Event) {
    match st {
        MonitorState::Disconnected => (spec_connect_step(tick.0), spec_connect_event(host, tick.0)),
        MonitorState::Connected => (spec_poll_step(st, tick.1), spec_poll_event(host, tick.1)),
    }
}

/// A whole run of a monitor's task: the state after every tick was digested,
/// and the events it emitted, in order.
pub open spec fn spec_machine_run(
    host: String,
    st: MonitorState,
    ticks: Seq<(ConnectOutcome, PollOutcome)>,
) -> (MonitorState, Seq<Event>)
    decreases ticks.len(),
{
    if ticks.len() == 0 {
        (st, Seq::empty())
    } else {
        let first = spec_machine_step(host, st, ticks[0]);
        let rest = spec_machine_run(host, first.0, ticks.drop_first());
        (rest.0, seq![first.1] + rest.1)
    }
}

/// Is this event a connection error of `host`?
pub open spec fn is_connection_error_for(ev: Event, host: String) -> bool {
    ev matches Event::HostStatus(h, ConnectionEvent::ConnectionError(_)) && h == host
}

/// Law: a monitor whose connect attempts all fail only retries. Started
/// disconnected, it ends every tick disconnected, each tick's event is the
/// connection error that tick's attempt produced, and it never emits a
/// sampling event.
pub proof fn lemma_failing_connects_only_retry(
    host: String,
    ticks: Seq<(ConnectOutcome, PollOutcome)>,
)
    requires
        forall|i: int| 0 <= i < ticks.len() ==> (#[trigger] ticks[i]).0 is Failed,
    ensures
        spec_machine_run(host, MonitorState::Disconnected, ticks).0 is Disconnected,
        spec_machine_run(host, MonitorState::Disconnected, ticks).1.len() == ticks.len(),
        forall|i: int|
            0 <= i < ticks.len() ==> #[trigger] spec_machine_run(
                host,
                MonitorState::Disconnected,
                ticks,
            ).1[i] == spec_connect_event(host, ticks[i].0),
        forall|i: int|
            0 <= i < ticks.len() ==> is_connection_error_for(
                #[trigger] spec_machine_run(host, MonitorState::Disconnected, ticks).1[i],
                host,
            ),
        forall|i: int|
            0 <= i < ticks.len() ==> !(#[trigger] spec_machine_run(
                host,
                MonitorState::Disconnected,
                ticks,
            ).1[i] is LoadStatus),
    decreases ticks.len(),
{
    if ticks.len() > 0 {
        lemma_failing_connects_only_retry(host, ticks.drop_first());
        let first = spec_machine_step(host, MonitorState::Disconnected, ticks[0]);
        let rest = spec_machine_run(host, first.0, ticks.drop_first());
        assert forall|i: int|
            0 <= i < ticks.len() implies #[trigger] spec_machine_run(
            host,
            MonitorState::Disconnected,
            ticks,
        ).1[i] == spec_connect_event(host, ticks[i].0) && is_connection_error_for(
            spec_machine_run(host, MonitorState::Disconnected, ticks).1[i],
            host,
        ) && !(spec_machine_run(host, MonitorState::Disconnected, ticks).1[i] is LoadStatus) by {
            if i > 0 {
                assert(spec_machine_run(host, MonitorState::Disconnected, ticks).1[i] == rest.1[i
                    - 1]);
                assert(ticks.drop_first()[i - 1] == ticks[i]);
            }
        }
    }
}

/// Did this poll run the metric command to completion with exit code zero?
pub open spec fn is_clean_poll(o: PollOutcome) -> bool {
    o matches PollOutcome::Completed(code, _, _) && code == 0
}

/// Is this event a load sample of `host`?
pub open spec fn is_sample_for(ev: Event, host: String) -> bool {
    ev matches Event::LoadStatus(h, LoadEvent::Load(_)) && h == host
}

/// From a connected state, ticks whose polls all finish cleanly keep the
/// monitor connected, and each tick's event is that tick's sample.
proof fn lemma_connected_clean_polls(host: String, ticks: Seq<(ConnectOutcome, PollOutcome)>)
    requires
        forall|i: int| 0 <= i < ticks.len() ==> is_clean_poll((#[trigger] ticks[i]).1),
    ensures
        spec_machine_run(host, MonitorState::Connected, ticks).0 is Connected,
        spec_machine_run(host, MonitorState::Connected, ticks).1.len() == ticks.len(),
        forall|i: int|
            0 <= i < ticks.len() ==> #[trigger] spec_machine_run(
                host,
                MonitorState::Connected,
                ticks,
            ).1[i] == spec_poll_event(host, ticks[i].1),
        forall|i: int|
            0 <= i < ticks.len() ==> is_sample_for(
                #[trigger] spec_machine_run(host, MonitorState::Connected, ticks).1[i],
                host,
            ),
    decreases ticks.len(),
{
    if ticks.len() > 0 {
        lemma_connected_clean_polls(host, ticks.drop_first());
        let first = spec_machine_step(host, MonitorState::Connected, ticks[0]);
        let rest = spec_machine_run(host, first.0, ticks.drop_first());
        assert forall|i: int|
            0 <= i < ticks.len() implies #[trigger] spec_machine_run(
            host,
            MonitorState::Connected,
            ticks,
        ).1[i] == spec_poll_event(host, ticks[i].1) && is_sample_for(
            spec_machine_run(host, MonitorState::Connected, ticks).1[i],
            host,
        ) by {
            if i > 0 {
                assert(spec_machine_run(host, MonitorState::Connected, ticks).1[i] == rest.1[i
                    - 1]);
                assert(ticks.drop_first()[i - 1] == ticks[i]);
            }
        }
    }
}

/// Law: a monitor that connects on its first tick and whose every later
/// poll runs the metric command to exit code zero announces the connection
/// once and then samples: it stays connected, and each later tick's event
/// carries that tick's stdout as a sample of its host.
pub proof fn lemma_healthy_host_always_samples(
    host: String,
    ticks: Seq<(ConnectOutcome, PollOutcome)>,
)
    requires
        ticks.len() > 0,
        ticks[0].0 is Connected,
        forall|i: int| 1 <= i < ticks.len() ==> is_clean_poll((#[trigger] ticks[i]).1),
    ensures
        spec_machine_run(host, MonitorState::Disconnected, ticks).0 is Connected,
        spec_machine_run(host, MonitorState::Disconnected, ticks).1.len() == ticks.len(),
        spec_machine_run(host, MonitorState::Disconnected, ticks).1[0] == Event::HostStatus(
            host,
            ConnectionEvent::Connected,
        ),
        forall|i: int|
            1 <= i < ticks.len() ==> #[trigger] spec_machine_run(
                host,
                MonitorState::Disconnected,
                ticks,
            ).1[i] == spec_poll_event(host, ticks[i].1),
        forall|i: int|
            1 <= i < ticks.len() ==> is_sample_for(
                #[trigger] spec_machine_run(host, MonitorState::Disconnected, ticks).1[i],
                host,
            ),
{
    let first = spec_machine_step(host, MonitorState::Disconnected, ticks[0]);
    assert forall|i: int|
        0 <= i < ticks.drop_first().len() implies is_clean_poll(
        (#[trigger] ticks.drop_first()[i]).1,
    ) by {
        assert(ticks.drop_first()[i] == ticks[i + 1]);
    }
    lemma_connected_clean_polls(host, ticks.drop_first());
    let rest = spec_machine_run(host, first.0, ticks.drop_first());
    assert forall|i: int|
        1 <= i < ticks.len() implies #[trigger] spec_machine_run(
        host,
        MonitorState::Disconnected,
        ticks,
    ).1[i] == spec_poll_event(host, ticks[i].1) && is_sample_for(
        spec_machine_run(host, MonitorState::Disconnected, ticks).1[i],
        host,
    ) by {
        assert(spec_machine_run(host, MonitorState::Disconnected, ticks).1[i] == rest.1[i - 1]);
        assert(ticks.drop_first()[i - 1] == ticks[i]);
    }
}

} // verus!
