//! The session manager: stores configurations under fresh identifiers,
//! decides when a child may be launched, relays messages to a live session's
//! input queue, and tears live sessions down.
//!
//! The manager owns the only two pieces of shared state, the config registry
//! and the live-process map.  Spawning the child and awaiting its supervising
//! task are the host's work: `start_session_process` hands the host a
//! [`LaunchPlan`], `register_session_process` records what the host spawned,
//! and `stop_session_process` removes the entry — the commit point after
//! which the session is observably not running — and hands back the task
//! handle for the host's bounded grace-period wait.

use vstd::prelude::*;

use crate::command::{build_session_args, session_args, LaunchPlan};
use crate::config::{created_config, resumed_config, SessionConfig, DEFAULT_TEMPERATURE};
use crate::errors::{SessionError, StreamKind};
use crate::table::{find_key, has_key, lemma_lookup_push, lemma_remove_key, lookup, unique_keys};

verus! {

#[verifier::external_type_specification]
#[verifier::external_body]
#[verifier::reject_recursive_types(T)]
pub struct ExUnboundedSender<T>(tokio::sync::mpsc::UnboundedSender<T>);

#[verifier::external_type_specification]
#[verifier::external_body]
#[verifier::reject_recursive_types(T)]
pub struct ExJoinHandle<T>(tokio::task::JoinHandle<T>);

#[verifier::external_type_specification]
#[verifier::external_body]
pub struct ExJoinError(tokio::task::JoinError);

/// Relies on uuid's `Uuid::new_v4` and its display form: a random version-4
/// identifier, printed hyphenated as exactly 36 characters.  The value is
/// random, so nothing is promised beyond the length.
#[verifier::external_body]
fn new_session_id() -> (r: String)
    ensures
        r@.len() == 36,
{
    uuid::Uuid::new_v4().to_string()
}

/// Relies on tokio's `UnboundedSender::send`: never blocks, queues the
/// message and returns `Ok` while the receiving half is open, and returns an
/// error once it is closed.  Which of the two happens depends on the
/// channel's runtime state, so nothing is promised about the outcome.
#[verifier::external_body]
fn channel_send(tx: &tokio::sync::mpsc::UnboundedSender<String>, message: String) -> (r: Result<
    (),
    String,
>) {
    match tx.send(message) {
        Ok(()) => Ok(()),
        Err(e) => Err(e.to_string()),
    }
}

/// One live session: the configuration it was launched with, the sending end
/// of its inbound message queue, and the handle of its supervising task.
pub struct SessionProcess {
    pub config: SessionConfig,
    pub stdin_tx: tokio::sync::mpsc::UnboundedSender<String>,
    pub process_handle: tokio::task::JoinHandle<()>,
}

/// What a start decision asks the host to do.
pub enum StartOutcome {
    /// A process for the session is already live: nothing to spawn.
    AlreadyRunning,
    /// No process is live: spawn the child this plan describes, then record
    /// it with `register_session_process`.
    Launch(LaunchPlan),
}

/// The identifiers of stored past sessions.  No persistence backend exists,
/// so the enumeration is always empty.
pub fn get_available_sessions() -> (r: Result<Vec<String>, SessionError>)
    ensures
        match r {
            Ok(v) => v@.len() == 0,
            Err(_) => false,
        },
{
    Ok(Vec::new())
}

/// The longest key held in the registry.
fn max_key_len(entries: &Vec<(String, SessionConfig)>) -> (m: usize)
    ensures
        forall|k: int| 0 <= k < entries@.len() ==> entries@[k].0@.len() <= m as nat,
{
    let mut m: usize = 0;
    let mut i: usize = 0;
    while i < entries.len()
        invariant
            i <= entries@.len(),
            forall|k: int| 0 <= k < i ==> entries@[k].0@.len() <= m as nat,
        decreases entries@.len() - i,
    {
        let l = entries[i].0.as_str().unicode_len();
        if l > m {
            m = l;
        }
        i = i + 1;
    }
    m
}

/// A fresh identifier: a random one, which practically never collides, and —
/// should it ever — one made longer than every stored key.
fn fresh_session_id(registry: &Vec<(String, SessionConfig)>) -> (id: String)
    ensures
        !has_key(registry@, id@),
{
    let id = new_session_id();
    match find_key(registry, &id) {
        None => id,
        Some(_) => {
            let bound = max_key_len(registry);
            let mut fresh = id;
            let mut i: usize = 0;
            while i < bound
                invariant
                    i <= bound,
                    fresh@.len() == 36 + i,
                decreases bound - i,
            {
                fresh.push('x');
                i = i + 1;
            }
            proof {
                assert forall|k: int|
                    0 <= k < registry@.len() implies registry@[k].0@ != fresh@ by {
                    assert(registry@[k].0@.len() <= bound < fresh@.len());
                }
            }
            fresh
        },
    }
}

/// The session manager.  `registry` holds every configuration ever created,
/// keyed by session identifier; `processes` holds at most one live process
/// per identifier.
pub struct SessionManager {
    pub registry: Vec<(String, SessionConfig)>,
    pub processes: Vec<(String, SessionProcess)>,
}

impl SessionManager {
    /// Both tables keep their keys distinct: one config and at most one live
    /// process per identifier.
    pub open spec fn wf(&self) -> bool {
        unique_keys(self.registry@) && unique_keys(self.processes@)
    }

    /// Whether a start for `id` is accepted with a launch: a configuration
    /// is stored and no process is live.
    pub open spec fn start_accepted(&self, id: Seq<char>) -> bool {
        has_key(self.registry@, id) && !has_key(self.processes@, id)
    }

    /// A manager with no configurations and no live processes.
    pub fn new() -> (r: Self)
        ensures
            r.wf(),
            r.registry@.len() == 0,
            r.processes@.len() == 0,
    {
        SessionManager { registry: Vec::new(), processes: Vec::new() }
    }

    /// Stores a configuration under a fresh identifier and returns it.
    fn store_config(&mut self, config: SessionConfig) -> (id: String)
        requires
            old(self).wf(),
        ensures
            final(self).wf(),
            !has_key(old(self).registry@, id@),
            lookup(final(self).registry@, id@) == Some(config),
            forall|o: Seq<char>|
                o != id@ ==> lookup(final(self).registry@, o) == lookup(old(self).registry@, o),
            final(self).registry@ == old(self).registry@.push((id, config)),
            final(self).processes@ == old(self).processes@,
    {
        let id = fresh_session_id(&self.registry);
        let key = id.clone();
        let ghost before = self.registry@;
        self.registry.push((key, config));
        proof {
            assert(self.registry@ == before.push((id, config)));
            assert forall|o: Seq<char>| lookup(self.registry@, o) == if id@ == o {
                Some(config)
            } else {
                lookup(before, o)
            } by {
                lemma_lookup_push(before, (id, config), o);
            }
            assert forall|k1: int, k2: int|
                0 <= k1 < k2 < self.registry@.len() implies self.registry@[k1].0@
                != self.registry@[k2].0@ by {
                if k2 == before.len() {
                    assert(self.registry@[k2].0@ == id@);
                    assert(self.registry@[k1] == before[k1]);
                }
            }
        }
        id
    }

    /// Allocates a new identifier and stores under it a configuration built
    /// from the given fields, defaults applied: temperature seven tenths,
    /// role "developer", no resume target.  Always succeeds; the identifier
    /// was issued to no earlier configuration.
    pub fn create_session_config(
        &mut self,
        name: Option<String>,
        directory: String,
        model: Option<String>,
        temperature: Option<u32>,
        max_tokens: Option<u32>,
        role: Option<String>,
    ) -> (id: String)
        requires
            old(self).wf(),
        ensures
            final(self).wf(),
            !has_key(old(self).registry@, id@),
            match lookup(final(self).registry@, id@) {
                Some(c) => c@ == created_config(
                    name.deep_view(),
                    directory@,
                    model.deep_view(),
                    temperature,
                    max_tokens,
                    role.deep_view(),
                ),
                None => false,
            },
            forall|o: Seq<char>|
                o != id@ ==> lookup(final(self).registry@, o) == lookup(old(self).registry@, o),
            final(self).processes@ == old(self).processes@,
    {
        let config = SessionConfig {
            name: name,
            resume: None,
            model: model,
            temperature: match temperature {
                Some(t) => t,
                None => DEFAULT_TEMPERATURE,
            },
            max_tokens: max_tokens,
            role: match role {
                Some(r) => r,
                None => String::from_str("developer"),
            },
            directory: directory,
        };
        self.store_config(config)
    }

    /// As `create_session_config`, but the stored configuration's resume
    /// target is `session_name` and its name field stays empty.  It is not
    /// checked that `session_name` names an existing past session.
    pub fn resume_session_config(
        &mut self,
        session_name: String,
        directory: String,
        model: Option<String>,
        temperature: Option<u32>,
        max_tokens: Option<u32>,
        role: Option<String>,
    ) -> (id: String)
        requires
            old(self).wf(),
        ensures
            final(self).wf(),
            !has_key(old(self).registry@, id@),
            match lookup(final(self).registry@, id@) {
                Some(c) => c@ == resumed_config(
                    session_name@,
                    directory@,
                    model.deep_view(),
                    temperature,
                    max_tokens,
                    role.deep_view(),
                ),
                None => false,
            },
            forall|o: Seq<char>|
                o != id@ ==> lookup(final(self).registry@, o) == lookup(old(self).registry@, o),
            final(self).processes@ == old(self).processes@,
    {
        let config = SessionConfig {
            name: None,
            resume: Some(session_name),
            model: model,
            temperature: match temperature {
                Some(t) => t,
                None => DEFAULT_TEMPERATURE,
            },
            max_tokens: max_tokens,
            role: match role {
                Some(r) => r,
                None => String::from_str("developer"),
            },
            directory: directory,
        };
        self.store_config(config)
    }

    /// The stored configuration for `session_id`, exactly as stored.
    pub fn get_session_info(&self, session_id: &String) -> (r: Result<SessionConfig, SessionError>)
        ensures
            match r {
                Ok(c) => lookup(self.registry@, session_id@) == Some(c),
                Err(e) => e matches SessionError::ConfigNotFound && !has_key(
                    self.registry@,
                    session_id@,
                ),
            },
    {
        match find_key(&self.registry, session_id) {
            Some(k) => Ok(self.registry[k].1.clone()),
            None => Err(SessionError::ConfigNotFound),
        }
    }

    /// Whether a live process entry exists for `session_id`.
    pub fn is_session_running(&self, session_id: &String) -> (r: bool)
        ensures
            r == has_key(self.processes@, session_id@),
    {
        match find_key(&self.processes, session_id) {
            Some(_) => true,
            None => false,
        }
    }

    /// Decides a start for `session_id`.  With no stored configuration the
    /// start is refused.  With a process already live nothing is spawned and
    /// the start succeeds at once.  Otherwise the host receives the plan for
    /// spawning the child: the agent executable, subcommand "session" with
    /// the configuration's flags, in the configured working directory.
    pub fn start_session_process(&self, session_id: &String) -> (r: Result<
        StartOutcome,
        SessionError,
    >)
        ensures
            match r {
                Ok(out) => match out {
                    StartOutcome::AlreadyRunning => has_key(self.processes@, session_id@)
                        && has_key(self.registry@, session_id@),
                    StartOutcome::Launch(plan) => self.start_accepted(session_id@) && match lookup(
                        self.registry@,
                        session_id@,
                    ) {
                        Some(c) => plan.program@ == "octomind"@ && plan.args@.map_values(
                            |s: String| s@,
                        ) == session_args(c@) && plan.directory@ == c@.directory,
                        None => false,
                    },
                },
                Err(e) => e matches SessionError::ConfigNotFound && !has_key(
                    self.registry@,
                    session_id@,
                ),
            },
    {
        match find_key(&self.registry, session_id) {
            None => Err(SessionError::ConfigNotFound),
            Some(k) => {
                match find_key(&self.processes, session_id) {
                    Some(_) => Ok(StartOutcome::AlreadyRunning),
                    None => {
                        let config = &self.registry[k].1;
                        let plan = LaunchPlan {
                            program: String::from_str("octomind"),
                            args: build_session_args(config),
                            directory: config.directory.clone(),
                        };
                        Ok(StartOutcome::Launch(plan))
                    },
                }
            },
        }
    }

    /// Records the process the host spawned for `session_id`.  The one live
    /// process per session is whoever registers it; the host must not
    /// register a session that is already running.
    pub fn register_session_process(&mut self, session_id: String, process: SessionProcess)
        requires
            old(self).wf(),
            !has_key(old(self).processes@, session_id@),
        ensures
            final(self).wf(),
            final(self).registry@ == old(self).registry@,
            final(self).processes@ == old(self).processes@.push((session_id, process)),
            has_key(final(self).processes@, session_id@),
    {
        let ghost before = self.processes@;
        let ghost sid = session_id@;
        self.processes.push((session_id, process));
        proof {
            assert(self.processes@[before.len() as int].0@ == sid);
            assert forall|k1: int, k2: int|
                0 <= k1 < k2 < self.processes@.len() implies self.processes@[k1].0@
                != self.processes@[k2].0@ by {
                if k2 == before.len() {
                    assert(self.processes@[k1] == before[k1]);
                }
            }
        }
    }

    /// Hands `message` to the live session's inbound queue, first come first
    /// served, without waiting.  With no live process for `session_id` the
    /// call fails and changes nothing; with the queue already torn down it
    /// reports the input stream's failure.
    pub fn send_message_to_session(&self, session_id: &String, message: String) -> (r: Result<
        (),
        SessionError,
    >)
        ensures
            match r {
                Ok(_) => has_key(self.processes@, session_id@),
                Err(e) => match e {
                    SessionError::ProcessNotRunning => !has_key(self.processes@, session_id@),
                    SessionError::IoFailure(kind, _) => has_key(self.processes@, session_id@)
                        && kind == StreamKind::Stdin,
                    _ => false,
                },
            },
    {
        match find_key(&self.processes, session_id) {
            None => Err(SessionError::ProcessNotRunning),
            Some(k) => {
                match channel_send(&self.processes[k].1.stdin_tx, message) {
                    Ok(_) => Ok(()),
                    Err(reason) => Err(SessionError::IoFailure(StreamKind::Stdin, reason)),
                }
            },
        }
    }

    /// Removes the live-process entry for `session_id` — the commit point:
    /// from here on the session is observably not running — then enqueues the
    /// shutdown sentinel on its detached input queue and hands the host the
    /// supervising task's handle for a bounded grace-period wait.  With no
    /// live process the call fails and changes nothing.
    pub fn stop_session_process(&mut self, session_id: &String) -> (r: Result<
        tokio::task::JoinHandle<()>,
        SessionError,
    >)
        requires
            old(self).wf(),
        ensures
            final(self).wf(),
            final(self).registry@ == old(self).registry@,
            !has_key(final(self).processes@, session_id@),
            match r {
                Ok(_) => exists|k: int|
                    0 <= k < old(self).processes@.len() && old(self).processes@[k].0@ == session_id@
                        && final(self).processes@ == old(self).processes@.remove(k),
                Err(e) => e matches SessionError::ProcessNotRunning && !has_key(
                    old(self).processes@,
                    session_id@,
                ) && final(self).processes@ == old(self).processes@,
            },
    {
        match find_key(&self.processes, session_id) {
            None => Err(SessionError::ProcessNotRunning),
            Some(k) => {
                proof {
                    lemma_remove_key(self.processes@, k as int, session_id@);
                }
                let (_, process) = self.processes.remove(k);
                let _ = channel_send(&process.stdin_tx, String::from_str("/exit"));
                Ok(process.process_handle)
            },
        }
    }
}

/// After a completed stop for `id` the session is not running, so while its
/// configuration is still stored — and the registry never forgets one — a
/// new start for `id` is accepted again and launches a fresh process.
pub proof fn lemma_restart_after_stop(pre: SessionManager, post: SessionManager, id: Seq<char>)
    requires
        post.registry@ == pre.registry@,
        !has_key(post.processes@, id),
        has_key(pre.registry@, id),
    ensures
        post.start_accepted(id),
{
}

} // verus!
