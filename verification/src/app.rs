//! The status store: one entry per monitored host, holding the most recently
//! reported status, plus the running flag and the counter the arrow keys drive.

use vstd::prelude::*;
use vstd::string::StringExecFns;

verus! {

/// Current status of one monitored host, as shown in the dashboard table.
#[derive(Debug, Clone, PartialEq, Eq)]
pub enum HostState {
    /// No usable session yet; the initial state of every host.
    Connecting,
    /// The last poll succeeded; carries the sampled load line verbatim.
    Up(String),
    /// The last connection attempt or poll failed; carries the cause.
    Down(String),
}

/// Mathematical value of a [`HostState`]: the same three cases with the
/// string payloads abstracted to character sequences.
pub enum HostStatus {
    Connecting,
    Up(Seq<char>),
    Down(Seq<char>),
}

impl View for HostState {
    type V = HostStatus;

    open spec fn view(&self) -> HostStatus {
        match self {
            HostState::Connecting => HostStatus::Connecting,
            HostState::Up(s) => HostStatus::Up(s@),
            HostState::Down(s) => HostStatus::Down(s@),
        }
    }
}

/// First-match lookup of a host name in the store's entry list.
pub open spec fn lookup_host(entries: Seq<(String, HostState)>, name: Seq<char>) -> Option<
    HostStatus,
>
    decreases entries.len(),
{
    if entries.len() == 0 {
        None
    } else if entries[0].0@ == name {
        Some(entries[0].1@)
    } else {
        lookup_host(entries.drop_first(), name)
    }
}

/// The map a list of store entries denotes: each name goes to the status of
/// its first entry.
pub open spec fn hosts_map(entries: Seq<(String, HostState)>) -> Map<Seq<char>, HostStatus> {
    Map::new(
        |name: Seq<char>| lookup_host(entries, name) is Some,
        |name: Seq<char>| lookup_host(entries, name)->Some_0,
    )
}

/// Mathematical value of the whole application state.
#[verifier::ext_equal]
pub struct AppView {
    pub running: bool,
    pub counter: u8,
    pub hosts: Map<Seq<char>, HostStatus>,
}

/// Application state: the main loop's view of the world.
#[derive(Debug)]
pub struct App {
    /// Is the application running?
    pub running: bool,
    /// A small counter driven by the arrow keys.
    pub counter: u8,
    /// The status store: one entry per host, most recent status wins.
    pub hosts: Vec<(String, HostState)>,
}

impl View for App {
    type V = AppView;

    open spec fn view(&self) -> AppView {
        AppView { running: self.running, counter: self.counter, hosts: hosts_map(self.hosts@) }
    }
}

impl Default for App {
    /// A fresh application: running, counter at zero, no host entries.
    fn default() -> (res: Self)
        ensures
            res@ == (AppView { running: true, counter: 0u8, hosts: Map::empty() }),
    {
        let res = App { running: true, counter: 0, hosts: Vec::new() };
        proof {
            assert(res@.hosts =~= Map::<Seq<char>, HostStatus>::empty());
        }
        res
    }
}

impl App {
    /// Constructs a new instance of [`App`].
    pub fn new() -> (res: Self)
        ensures
            res@ == (AppView { running: true, counter: 0u8, hosts: Map::empty() }),
    {
        Self::default()
    }

    /// Handles the tick event of the terminal; the state is untouched.
    pub fn tick(&self) {
    }

    /// Set running to false to quit the application.
    pub fn quit(&mut self)
        ensures
            final(self)@ == (AppView { running: false, ..old(self)@ }),
    {
        self.running = false;
    }

    /// Raise the counter by one; at its maximum it stays put.
    pub fn increment_counter(&mut self)
        ensures
            final(self)@ == (AppView {
                counter: if old(self).counter == u8::MAX {
                    u8::MAX
                } else {
                    (old(self).counter + 1) as u8
                },
                ..old(self)@
            }),
    {
        if let Some(res) = self.counter.checked_add(1) {
            self.counter = res;
        }
    }

    /// Lower the counter by one; at zero it stays put.
    pub fn decrement_counter(&mut self)
        ensures
            final(self)@ == (AppView {
                counter: if old(self).counter == 0 {
                    0u8
                } else {
                    (old(self).counter - 1) as u8
                },
                ..old(self)@
            }),
    {
        if let Some(res) = self.counter.checked_sub(1) {
            self.counter = res;
        }
    }

    /// Record `state` as the current status of `host`, overwriting whatever
    /// was there before.
    fn set_host(&mut self, host: &str, state: HostState)
        ensures
            final(self)@ == (AppView {
                hosts: old(self)@.hosts.insert(host@, state@),
                ..old(self)@
            }),
    {
        let ghost entries0 = self.hosts@;
        let key = String::from_str(host);
        let mut i: usize = 0;
        while i < self.hosts.len()
            invariant
                i <= self.hosts@.len(),
                self == old(self),
                self.hosts@ == entries0,
                key@ == host@,
                forall|j: int| 0 <= j < i ==> entries0[j].0@ != host@,
            decreases self.hosts@.len() - i,
        {
            if self.hosts[i].0 == key {
                self.hosts.set(i, (key, state));
                proof {
                    assert forall|q: Seq<char>|
                        lookup_host(self.hosts@, q) == (if q == host@ {
                            Some(state@)
                        } else {
                            lookup_host(entries0, q)
                        }) by {
                        lemma_lookup_update(entries0, i as int, (self.hosts@[i as int]), q);
                    }
                    lemma_hosts_map_insert(entries0, self.hosts@, host@, state@);
                }
                return ;
            }
            i = i + 1;
        }
        self.hosts.push((key, state));
        proof {
            lemma_lookup_none(entries0, host@);
            assert forall|q: Seq<char>|
                lookup_host(self.hosts@, q) == (if q == host@ {
                    Some(state@)
                } else {
                    lookup_host(entries0, q)
                }) by {
                lemma_lookup_push(entries0, (self.hosts@.last()), q);
            }
            lemma_hosts_map_insert(entries0, self.hosts@, host@, state@);
        }
    }

    /// Mark `host` as connecting: a monitor has begun a connection attempt.
    pub fn set_host_connecting(&mut self, host: &str)
        ensures
            final(self)@ == (AppView {
                hosts: old(self)@.hosts.insert(host@, HostStatus::Connecting),
                ..old(self)@
            }),
    {
        self.set_host(host, HostState::Connecting);
    }

    /// Mark `host` as up with the freshly sampled load line.
    pub fn set_host_status(&mut self, host: &str, load: &str)
        ensures
            final(self)@ == (AppView {
                hosts: old(self)@.hosts.insert(host@, HostStatus::Up(load@)),
                ..old(self)@
            }),
    {
        self.set_host(host, HostState::Up(String::from_str(load)));
    }

    /// Mark `host` as down with the cause of the failure.
    pub fn set_host_error(&mut self, host: &str, error: &str)
        ensures
            final(self)@ == (AppView {
                hosts: old(self)@.hosts.insert(host@, HostStatus::Down(error@)),
                ..old(self)@
            }),
    {
        self.set_host(host, HostState::Down(String::from_str(error)));
    }

    /// The current status of `host`, or `None` if no event has mentioned it.
    pub fn get_host(&self, host: &str) -> (r: Option<&HostState>)
        ensures
            r is Some <==> self@.hosts.contains_key(host@),
            r matches Some(state) ==> self@.hosts[host@] == state@,
    {
        let key = String::from_str(host);
        let mut i: usize = 0;
        while i < self.hosts.len()
            invariant
                i <= self.hosts@.len(),
                key@ == host@,
                forall|j: int| 0 <= j < i ==> self.hosts@[j].0@ != host@,
            decreases self.hosts@.len() - i,
        {
            if self.hosts[i].0 == key {
                proof {
                    lemma_lookup_hit(self.hosts@, i as int, host@);
                }
                return Some(&self.hosts[i].1);
            }
            i = i + 1;
        }
        proof {
            lemma_lookup_none(self.hosts@, host@);
        }
        None
    }
}

/// Looking a name up in a list where no entry carries it finds nothing.
proof fn lemma_lookup_none(entries: Seq<(String, HostState)>, name: Seq<char>)
    requires
        forall|j: int| 0 <= j < entries.len() ==> entries[j].0@ != name,
    ensures
        lookup_host(entries, name) is None,
    decreases entries.len(),
{
    if entries.len() > 0 {
        lemma_lookup_none(entries.drop_first(), name);
    }
}

/// Looking a name up finds the first entry that carries it.
proof fn lemma_lookup_hit(entries: Seq<(String, HostState)>, i: int, name: Seq<char>)
    requires
        0 <= i < entries.len(),
        entries[i].0@ == name,
        forall|j: int| 0 <= j < i ==> entries[j].0@ != name,
    ensures
        lookup_host(entries, name) == Some(entries[i].1@),
    decreases i,
{
    if i > 0 {
        lemma_lookup_hit(entries.drop_first(), i - 1, name);
    }
}

/// Overwriting the first entry that carries a name changes exactly that
/// name's lookup, and no other.
proof fn lemma_lookup_update(
    entries: Seq<(String, HostState)>,
    i: int,
    e: (String, HostState),
    q: Seq<char>,
)
    requires
        0 <= i < entries.len(),
        entries[i].0@ == e.0@,
        forall|j: int| 0 <= j < i ==> entries[j].0@ != e.0@,
    ensures
        lookup_host(entries.update(i, e), q) == (if q == e.0@ {
            Some(e.1@)
        } else {
            lookup_host(entries, q)
        }),
    decreases i,
{
    if i == 0 {
        assert(entries.update(0, e).drop_first() =~= entries.drop_first());
    } else {
        lemma_lookup_update(entries.drop_first(), i - 1, e, q);
        assert(entries.update(i, e).drop_first() =~= entries.drop_first().update(i - 1, e));
    }
}

/// Appending an entry changes the lookup of names no earlier entry carries,
/// and no other.
proof fn lemma_lookup_push(entries: Seq<(String, HostState)>, e: (String, HostState), q: Seq<char>)
    ensures
        lookup_host(entries.push(e), q) == (if lookup_host(entries, q) is Some {
            lookup_host(entries, q)
        } else if q == e.0@ {
            Some(e.1@)
        } else {
            None
        }),
    decreases entries.len(),
{
    if entries.len() == 0 {
        assert(entries.push(e)[0] == e);
        assert(entries.push(e).drop_first() =~= Seq::<(String, HostState)>::empty());
        assert(lookup_host(Seq::<(String, HostState)>::empty(), q) is None);
    } else {
        lemma_lookup_push(entries.drop_first(), e, q);
        assert(entries.push(e).drop_first() =~= entries.drop_first().push(e));
    }
}

/// When one list's lookup is another's with a single name redirected, its map
/// is the other's with that name inserted.
proof fn lemma_hosts_map_insert(
    old_e: Seq<(String, HostState)>,
    new_e: Seq<(String, HostState)>,
    name: Seq<char>,
    st: HostStatus,
)
    requires
        forall|q: Seq<char>|
            lookup_host(new_e, q) == (if q == name {
                Some(st)
            } else {
                lookup_host(old_e, q)
            }),
    ensures
        hosts_map(new_e) == hosts_map(old_e).insert(name, st),
{
    assert(hosts_map(new_e) =~= hosts_map(old_e).insert(name, st));
}

} // verus!
