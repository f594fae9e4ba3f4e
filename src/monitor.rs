//! The monitoring loop as a state machine. The caller performs each action that
//! the monitor asks for (read a page, deliver a notification, sleep) and hands the
//! result back; the monitor decides what comes next.
//!
//! The first pass only records the fingerprints of the pages and sends nothing.
//! The second pass follows it at once; after it, and after each later pass, the
//! monitor sleeps for the configured delay.
use crate::config::Config;
use crate::notify::{is_plan_for, plan_deliveries, recipient_of, Delivery, Dispatch, DispatchError};
use crate::urls::{
    after_fetch, changes, fetched_content, hash_list, has_url, listed, FetchError, MonitorState,
    Outcome,
};
use crate::digest::sha1_hex;
use vstd::prelude::*;

verus! {

/// What the monitor asks its caller to do next.
#[derive(Clone, Debug)]
pub enum Action {
    /// Read the page at this address and report with `on_fetched`.
    Fetch(String),
    /// Deliver this notification and report with `on_delivered`.
    Deliver(Delivery),
    /// Sleep this many seconds and report with `on_woke`.
    Sleep(u64),
}

/// The state of the monitoring loop.
pub struct Monitor {
    config: Config,
    state: MonitorState,
    priming: bool,
    cursor: usize,
    dispatch: Dispatch,
}

/// The seconds of sleep between passes for a delay of `minutes`.
pub open spec fn pause_seconds(minutes: u32) -> u64 {
    (minutes as u64 * 60) as u64
}

impl Monitor {
    /// The configuration.
    pub closed spec fn spec_config(&self) -> Config {
        self.config
    }

    /// Each watched page with its stored fingerprint.
    pub closed spec fn entries(&self) -> Seq<(Seq<char>, Seq<char>)> {
        self.state@
    }

    /// Whether the current pass is the first one, which sends nothing.
    pub closed spec fn priming(&self) -> bool {
        self.priming
    }

    /// The index of the next page to read in the current pass; the number of pages
    /// once the pass is over.
    pub closed spec fn cursor(&self) -> int {
        self.cursor as int
    }

    /// The delivery of the notifications of the last change.
    pub closed spec fn dispatch(&self) -> Dispatch {
        self.dispatch
    }

    /// The parts of the state agree with each other.
    pub closed spec fn wf(&self) -> bool {
        &&& self.state.wf()
        &&& self.cursor <= self.state@.len()
        &&& self.priming ==> self.cursor < self.state@.len()
        &&& self.dispatch.wf()
    }

    /// A monitor of the pages of `config`, each with an empty fingerprint, about
    /// to start its first pass.
    pub fn new(config: Config) -> (r: Monitor)
        ensures
            r.wf(),
            r.spec_config() == config,
            r.entries().len() <= config.urls@.len(),
            forall|u: Seq<char>| has_url(r.entries(), u) <==> listed(config.urls@, u),
            forall|i: int|
                0 <= i < r.entries().len() ==> r.entries()[i].1 == Seq::<char>::empty(),
            r.cursor() == 0,
            r.priming() == (r.entries().len() > 0),
            r.dispatch().done(),
    {
        let state = hash_list(&config.urls);
        let priming = state.len() > 0;
        let dispatch = Dispatch::new(Vec::new());
        Monitor { config, state, priming, cursor: 0, dispatch }
    }

    /// What to do next: deliver the pending notifications first, then read the
    /// pages of the current pass in turn, then sleep.
    pub fn next_action(&self) -> (r: Action)
        requires
            self.wf(),
        ensures
            !self.dispatch().done() ==> r == Action::Deliver(
                self.dispatch().plan()[self.dispatch().results().len() as int],
            ),
            self.dispatch().done() && self.cursor() < self.entries().len() ==> (r matches Action::Fetch(
                u,
            ) && u@ == self.entries()[self.cursor()].0),
            self.dispatch().done() && self.cursor() == self.entries().len() ==> r == Action::Sleep(
                pause_seconds(self.spec_config().timeout),
            ),
    {
        match self.dispatch.next_delivery() {
            Some(d) => Action::Deliver(d.clone_delivery()),
            None => {
                if self.cursor < self.state.len() {
                    Action::Fetch(self.state.url(self.cursor).clone())
                } else {
                    Action::Sleep(self.config.timeout as u64 * 60)
                }
            },
        }
    }

    /// Takes the result of reading the current page: checks it against the
    /// stored fingerprint and moves on to the next page. A change outside the
    /// first pass plans a notification to every recipient of the configuration.
    /// The end of the first pass starts the second at once.
    pub fn on_fetched(&mut self, fetched: Result<String, FetchError>) -> (r: Outcome)
        requires
            old(self).wf(),
            old(self).dispatch().done(),
            old(self).cursor() < old(self).entries().len(),
        ensures
            final(self).wf(),
            final(self).spec_config() == old(self).spec_config(),
            final(self).entries() == after_fetch(
                old(self).entries(),
                old(self).cursor(),
                fetched_content(fetched),
            ),
            match r {
                Outcome::Unchanged => {
                    &&& fetched is Ok
                    &&& !changes(
                        old(self).entries()[old(self).cursor()].1,
                        fetched_content(fetched)->Some_0,
                    )
                },
                Outcome::Changed(f) => {
                    &&& fetched is Ok
                    &&& changes(
                        old(self).entries()[old(self).cursor()].1,
                        fetched_content(fetched)->Some_0,
                    )
                    &&& f@ == sha1_hex(fetched_content(fetched)->Some_0)
                },
                Outcome::FetchFailed(e) => fetched == Err::<String, FetchError>(e),
            },
            fetched is Ok && old(self).entries()[old(self).cursor()].1.len() == 0 ==> r is Changed,
            final(self).priming() == (old(self).priming() && old(self).cursor() + 1 < old(
                self,
            ).entries().len()),
            final(self).cursor() == (if old(self).priming() && old(self).cursor() + 1 == old(
                self,
            ).entries().len() {
                0
            } else {
                old(self).cursor() + 1
            }),
            final(self).dispatch().results().len() == 0,
            r is Changed && !old(self).priming() ==> is_plan_for(
                final(self).dispatch().plan(),
                old(self).spec_config(),
                old(self).entries()[old(self).cursor()].0,
            ),
            !(r is Changed && !old(self).priming()) ==> final(self).dispatch().plan().len() == 0,
    {
        let i = self.cursor;
        let n = self.state.len();
        let url = self.state.url(i).clone();
        let r = self.state.check(i, fetched);
        let notify = match &r {
            Outcome::Changed(_) => !self.priming,
            _ => false,
        };
        if notify {
            self.dispatch = Dispatch::new(plan_deliveries(&self.config, &url));
        } else {
            self.dispatch = Dispatch::new(Vec::new());
        }
        if self.priming && i + 1 == n {
            self.priming = false;
            self.cursor = 0;
        } else {
            self.cursor = i + 1;
        }
        r
    }

    /// Takes the result of the pending delivery and moves on to the next one,
    /// whether it failed or not. A failure is returned as an error.
    pub fn on_delivered(&mut self, result: Result<(), String>) -> (r: Option<DispatchError>)
        requires
            old(self).wf(),
            !old(self).dispatch().done(),
        ensures
            final(self).wf(),
            final(self).spec_config() == old(self).spec_config(),
            final(self).entries() == old(self).entries(),
            final(self).priming() == old(self).priming(),
            final(self).cursor() == old(self).cursor(),
            final(self).dispatch().plan() == old(self).dispatch().plan(),
            final(self).dispatch().results() == old(self).dispatch().results().push(result),
            match result {
                Ok(_) => r is None,
                Err(c) => r matches Some(e) && e@ == (
                    recipient_of(old(self).dispatch().plan()[old(self).dispatch().results().len() as int]),
                    c@,
                ),
            },
    {
        self.dispatch.record(result)
    }

    /// Takes the end of the sleep after a pass and starts the next pass.
    pub fn on_woke(&mut self)
        requires
            old(self).wf(),
            old(self).dispatch().done(),
            old(self).cursor() == old(self).entries().len(),
        ensures
            final(self).wf(),
            final(self).spec_config() == old(self).spec_config(),
            final(self).entries() == old(self).entries(),
            final(self).priming() == old(self).priming(),
            final(self).cursor() == 0,
            final(self).dispatch() == old(self).dispatch(),
    {
        self.cursor = 0;
    }

    /// Whether the current pass is the first one, which sends nothing.
    pub fn is_priming(&self) -> (r: bool)
        ensures
            r == self.priming(),
    {
        self.priming
    }

    /// The index of the next page to read in the current pass.
    pub fn position(&self) -> (r: usize)
        ensures
            r == self.cursor(),
    {
        self.cursor
    }

    /// The configuration.
    pub fn config(&self) -> (r: &Config)
        ensures
            *r == self.spec_config(),
    {
        &self.config
    }

    /// The watched pages and their fingerprints.
    pub fn state(&self) -> (r: &MonitorState)
        ensures
            r@ == self.entries(),
    {
        &self.state
    }

    /// The errors left so far by the notifications of the last change.
    pub fn dispatch_errors(&self) -> (r: &Vec<DispatchError>)
        requires
            self.wf(),
        ensures
            r@.map_values(|e: DispatchError| e@) == crate::notify::failures(
                self.dispatch().plan(),
                self.dispatch().results(),
            ),
    {
        self.dispatch.errors()
    }
}

} // verus!
