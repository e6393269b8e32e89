//! Making sure a server runs: use one that is found, else start the bundled
//! one and poll until it is found or the deadline passes.
//!
//! `Launcher` decides; its host performs each planned action (run a search,
//! resolve the executable, spawn it, read the clock, sleep, kill, notify) and
//! reports what came of it.
use vstd::prelude::*;
use crate::server_info::{DiscoveryError, Failure, opt_view};

verus! {

/// How long a started server has to become healthy.
pub const DEADLINE_MS: u64 = 10000;

/// Pause between two searches while a started server comes up.
pub const POLL_INTERVAL_MS: u64 = 500;

/// Where a launch stands.
pub enum LaunchStage {
    /// The first search, before anything is started.
    Locating,
    /// Looking up the bundled executable.
    Resolving,
    /// Starting the executable at this path.
    Spawning(Seq<char>),
    /// Started; the time since the start is to be read.
    Polling,
    /// Started; a search runs.
    Looking,
    /// Started; pausing before the next search.
    Waiting,
    /// The deadline passed; the started process is being killed.
    Killing,
    /// Found at this URL after the start; the host is being told.
    Notifying(Seq<char>),
    /// Over, with the URL or the failure.
    Done(Result<Seq<char>, Failure>),
}

/// What the host reports.
pub enum LaunchEvent {
    /// A search found this URL, or nothing.
    Located(Option<Seq<char>>),
    /// The executable's path, or `None` if it could not be resolved.
    Resolved(Option<Seq<char>>),
    /// The process started, or the system's account of why not.
    Spawned(Result<(), Seq<char>>),
    /// This many milliseconds have passed since the process started.
    Clock(nat),
    /// The pause is over.
    Slept,
    /// The process was killed, or killing it was attempted.
    Killed,
    /// The host was told (or the message was dropped).
    Notified,
}

/// What the host is asked to do next.
pub enum LaunchPlan {
    Locate,
    ResolveBinary(Seq<char>),
    Spawn { program: Seq<char>, args: Seq<Seq<char>>, env_key: Seq<char>, env_value: Seq<char> },
    CheckClock,
    Sleep(nat),
    Kill,
    Notify { event: Seq<char>, url: Seq<char> },
    Finish(Result<Seq<char>, Failure>),
}

/// The packaged resource that holds the server executable.
pub open spec fn resource_spec() -> Seq<char> {
    "binaries/kuuzuki-x86_64-unknown-linux-gnu"@
}

/// The arguments that ask the server to pick a free port itself.
pub open spec fn spawn_args_spec() -> Seq<Seq<char>> {
    seq!["--port"@, "0"@]
}

/// The stage after `ev`.
pub open spec fn next(s: LaunchStage, ev: LaunchEvent) -> LaunchStage {
    match s {
        LaunchStage::Locating => match ev {
            LaunchEvent::Located(Some(u)) => LaunchStage::Done(Ok(u)),
            LaunchEvent::Located(None) => LaunchStage::Resolving,
            _ => s,
        },
        LaunchStage::Resolving => match ev {
            LaunchEvent::Resolved(Some(p)) => LaunchStage::Spawning(p),
            LaunchEvent::Resolved(None) => LaunchStage::Done(Err(Failure::Resource)),
            _ => s,
        },
        LaunchStage::Spawning(_) => match ev {
            LaunchEvent::Spawned(Ok(())) => LaunchStage::Polling,
            LaunchEvent::Spawned(Err(e)) => LaunchStage::Done(Err(Failure::Spawn(e))),
            _ => s,
        },
        LaunchStage::Polling => match ev {
            LaunchEvent::Clock(ms) => if ms >= DEADLINE_MS {
                LaunchStage::Killing
            } else {
                LaunchStage::Looking
            },
            _ => s,
        },
        LaunchStage::Looking => match ev {
            LaunchEvent::Located(Some(u)) => LaunchStage::Notifying(u),
            LaunchEvent::Located(None) => LaunchStage::Waiting,
            _ => s,
        },
        LaunchStage::Waiting => match ev {
            LaunchEvent::Slept => LaunchStage::Polling,
            _ => s,
        },
        LaunchStage::Killing => match ev {
            LaunchEvent::Killed => LaunchStage::Done(Err(Failure::Timeout)),
            _ => s,
        },
        LaunchStage::Notifying(u) => match ev {
            LaunchEvent::Notified => LaunchStage::Done(Ok(u)),
            _ => s,
        },
        LaunchStage::Done(_) => s,
    }
}

/// The action that a stage asks for.
pub open spec fn launch_plan(s: LaunchStage) -> LaunchPlan {
    match s {
        LaunchStage::Locating => LaunchPlan::Locate,
        LaunchStage::Resolving => LaunchPlan::ResolveBinary(resource_spec()),
        LaunchStage::Spawning(p) => LaunchPlan::Spawn {
            program: p,
            args: spawn_args_spec(),
            env_key: "KUUZUKI_HEADLESS"@,
            env_value: "1"@,
        },
        LaunchStage::Polling => LaunchPlan::CheckClock,
        LaunchStage::Looking => LaunchPlan::Locate,
        LaunchStage::Waiting => LaunchPlan::Sleep(POLL_INTERVAL_MS as nat),
        LaunchStage::Killing => LaunchPlan::Kill,
        LaunchStage::Notifying(u) => LaunchPlan::Notify { event: "server-started"@, url: u },
        LaunchStage::Done(r) => LaunchPlan::Finish(r),
    }
}

pub open spec fn result_view(r: Result<String, DiscoveryError>) -> Result<Seq<char>, Failure> {
    match r {
        Ok(s) => Ok(s@),
        Err(e) => Err(e@),
    }
}

/// An action for the host.
pub enum LaunchAction {
    /// Search for a running server and report with `on_located`.
    Locate,
    /// Look up the packaged `resource` and report with `on_resolved`.
    ResolveBinary { resource: String },
    /// Start `program` with `args` and the variable `env_key` set to
    /// `env_value`; report with `on_spawned`.
    Spawn { program: String, args: Vec<String>, env_key: String, env_value: String },
    /// Report the time since the start with `on_clock`.
    CheckClock,
    /// Pause for `ms` milliseconds, then call `on_slept`.
    Sleep { ms: u64 },
    /// Kill the started process (failure is only logged), then call `on_killed`.
    Kill,
    /// Send `event` with `url` to the host, then call `on_notified`.
    Notify { event: String, url: String },
    /// The launch is over.
    Finish { result: Result<String, DiscoveryError> },
}

impl View for LaunchAction {
    type V = LaunchPlan;

    open spec fn view(&self) -> LaunchPlan {
        match self {
            LaunchAction::Locate => LaunchPlan::Locate,
            LaunchAction::ResolveBinary { resource } => LaunchPlan::ResolveBinary(resource@),
            LaunchAction::Spawn { program, args, env_key, env_value } => LaunchPlan::Spawn {
                program: program@,
                args: args@.map_values(|s: String| s@),
                env_key: env_key@,
                env_value: env_value@,
            },
            LaunchAction::CheckClock => LaunchPlan::CheckClock,
            LaunchAction::Sleep { ms } => LaunchPlan::Sleep(*ms as nat),
            LaunchAction::Kill => LaunchPlan::Kill,
            LaunchAction::Notify { event, url } => LaunchPlan::Notify { event: event@, url: url@ },
            LaunchAction::Finish { result } => LaunchPlan::Finish(result_view(*result)),
        }
    }
}

enum Step {
    Locating,
    Resolving,
    Spawning { path: String },
    Polling,
    Looking,
    Waiting,
    Killing,
    Notifying { url: String },
    Done { result: Result<String, DiscoveryError> },
}

/// One attempt to make sure that a server runs.
pub struct Launcher {
    step: Step,
}

impl View for Launcher {
    type V = LaunchStage;

    closed spec fn view(&self) -> LaunchStage {
        match self.step {
            Step::Locating => LaunchStage::Locating,
            Step::Resolving => LaunchStage::Resolving,
            Step::Spawning { path } => LaunchStage::Spawning(path@),
            Step::Polling => LaunchStage::Polling,
            Step::Looking => LaunchStage::Looking,
            Step::Waiting => LaunchStage::Waiting,
            Step::Killing => LaunchStage::Killing,
            Step::Notifying { url } => LaunchStage::Notifying(url@),
            Step::Done { result } => LaunchStage::Done(result_view(result)),
        }
    }
}

fn spawn_args() -> (r: Vec<String>)
    ensures
        r@.map_values(|s: String| s@) == spawn_args_spec(),
{
    proof {
        reveal_strlit("--port");
        reveal_strlit("0");
    }
    let mut v: Vec<String> = Vec::new();
    v.push(String::from_str("--port"));
    v.push(String::from_str("0"));
    assert(v@.map_values(|s: String| s@) =~= spawn_args_spec());
    v
}

impl Launcher {
    /// An attempt that has not begun.
    pub fn new() -> (r: Launcher)
        ensures
            r@ == LaunchStage::Locating,
    {
        Launcher { step: Step::Locating }
    }

    /// What the host is to do next.
    pub fn action(&self) -> (r: LaunchAction)
        ensures
            r@ == launch_plan(self@),
    {
        proof {
            reveal_strlit("binaries/kuuzuki-x86_64-unknown-linux-gnu");
            reveal_strlit("KUUZUKI_HEADLESS");
            reveal_strlit("1");
            reveal_strlit("server-started");
        }
        match &self.step {
            Step::Locating => LaunchAction::Locate,
            Step::Resolving => LaunchAction::ResolveBinary {
                resource: String::from_str("binaries/kuuzuki-x86_64-unknown-linux-gnu"),
            },
            Step::Spawning { path } => LaunchAction::Spawn {
                program: path.clone(),
                args: spawn_args(),
                env_key: String::from_str("KUUZUKI_HEADLESS"),
                env_value: String::from_str("1"),
            },
            Step::Polling => LaunchAction::CheckClock,
            Step::Looking => LaunchAction::Locate,
            Step::Waiting => LaunchAction::Sleep { ms: POLL_INTERVAL_MS },
            Step::Killing => LaunchAction::Kill,
            Step::Notifying { url } => LaunchAction::Notify {
                event: String::from_str("server-started"),
                url: url.clone(),
            },
            Step::Done { result } => LaunchAction::Finish {
                result: match result {
                    Ok(u) => Ok(u.clone()),
                    Err(e) => Err(e.duplicate()),
                },
            },
        }
    }

    /// Takes in what a search found.
    pub fn on_located(&mut self, found: Option<String>)
        ensures
            final(self)@ == next(old(self)@, LaunchEvent::Located(opt_view(found))),
    {
        match self.step {
            Step::Locating => {
                self.step = match found {
                    Some(u) => Step::Done { result: Ok(u) },
                    None => Step::Resolving,
                };
            },
            Step::Looking => {
                self.step = match found {
                    Some(u) => Step::Notifying { url: u },
                    None => Step::Waiting,
                };
            },
            _ => {},
        }
    }

    /// Takes in the executable's path, or `None` if it was not found.
    pub fn on_resolved(&mut self, path: Option<String>)
        ensures
            final(self)@ == next(old(self)@, LaunchEvent::Resolved(opt_view(path))),
    {
        if let Step::Resolving = self.step {
            self.step = match path {
                Some(p) => Step::Spawning { path: p },
                None => Step::Done { result: Err(DiscoveryError::Resource) },
            };
        }
    }

    /// Takes in whether the process started.
    pub fn on_spawned(&mut self, started: Result<(), String>)
        ensures
            final(self)@ == next(
                old(self)@,
                LaunchEvent::Spawned(
                    match started {
                        Ok(()) => Ok(()),
                        Err(e) => Err(e@),
                    },
                ),
            ),
    {
        if let Step::Spawning { .. } = self.step {
            self.step = match started {
                Ok(()) => Step::Polling,
                Err(e) => Step::Done { result: Err(DiscoveryError::Spawn(e)) },
            };
        }
    }

    /// Takes in the milliseconds passed since the process started.
    pub fn on_clock(&mut self, elapsed_ms: u64)
        ensures
            final(self)@ == next(old(self)@, LaunchEvent::Clock(elapsed_ms as nat)),
    {
        if let Step::Polling = self.step {
            self.step = if elapsed_ms >= DEADLINE_MS {
                Step::Killing
            } else {
                Step::Looking
            };
        }
    }

    /// Takes in the end of a pause.
    pub fn on_slept(&mut self)
        ensures
            final(self)@ == next(old(self)@, LaunchEvent::Slept),
    {
        if let Step::Waiting = self.step {
            self.step = Step::Polling;
        }
    }

    /// Takes in that the started process was killed.
    pub fn on_killed(&mut self)
        ensures
            final(self)@ == next(old(self)@, LaunchEvent::Killed),
    {
        if let Step::Killing = self.step {
            self.step = Step::Done { result: Err(DiscoveryError::Timeout) };
        }
    }

    /// Takes in that the host was told of the server.
    pub fn on_notified(&mut self)
        ensures
            final(self)@ == next(old(self)@, LaunchEvent::Notified),
    {
        let next_step = match &self.step {
            Step::Notifying { url } => Step::Done { result: Ok(url.clone()) },
            _ => {
                return;
            },
        };
        self.step = next_step;
    }
}

} // verus!

verus! {

/// The stage reached from `s` by the events `evs`, in order.
pub open spec fn run_launch(s: LaunchStage, evs: Seq<LaunchEvent>) -> LaunchStage
    decreases evs.len(),
{
    if evs.len() == 0 {
        s
    } else {
        next(run_launch(s, evs.drop_last()), evs.last())
    }
}

proof fn lemma_done_stays(r: Result<Seq<char>, Failure>, evs: Seq<LaunchEvent>)
    ensures
        run_launch(LaunchStage::Done(r), evs) == LaunchStage::Done(r),
    decreases evs.len(),
{
    if evs.len() > 0 {
        lemma_done_stays(r, evs.drop_last());
    }
}

/// When the first search finds a server, the launch ends with its URL and,
/// whatever is reported after, never asks to spawn anything.
pub proof fn law_found_server_skips_spawn(u: Seq<char>, evs: Seq<LaunchEvent>)
    ensures
        next(LaunchStage::Locating, LaunchEvent::Located(Some(u))) == LaunchStage::Done(Ok(u)),
        run_launch(next(LaunchStage::Locating, LaunchEvent::Located(Some(u))), evs)
            == LaunchStage::Done(Ok(u)),
        launch_plan(run_launch(next(LaunchStage::Locating, LaunchEvent::Located(Some(u))), evs))
            == LaunchPlan::Finish(Ok(u)),
{
    lemma_done_stays(Ok(u), evs);
}

/// A spawn is asked for only after the first search found nothing and the
/// executable was resolved.
pub proof fn law_spawn_only_after_empty_search(s: LaunchStage, ev: LaunchEvent)
    ensures
        next(s, ev) is Spawning && !(s is Spawning) ==> s == LaunchStage::Resolving
            && ev is Resolved,
        next(s, ev) == LaunchStage::Resolving && s != LaunchStage::Resolving ==> s
            == LaunchStage::Locating && ev == LaunchEvent::Located(None),
{
}

/// A launch fails with a timeout only right after the started process was
/// killed; killing is asked for only once the time since the start reaches
/// the deadline, and before that each reading of the clock leads to a search.
pub proof fn law_timeout_follows_kill(s: LaunchStage, ev: LaunchEvent, ms: nat)
    ensures
        next(s, ev) == LaunchStage::Done(Err(Failure::Timeout)) && !(s is Done) ==> s
            == LaunchStage::Killing && ev == LaunchEvent::Killed && launch_plan(s)
            == LaunchPlan::Kill,
        next(s, ev) == LaunchStage::Killing && s != LaunchStage::Killing ==> s
            == LaunchStage::Polling && ev is Clock && ev->Clock_0 >= DEADLINE_MS,
        ms >= DEADLINE_MS ==> next(LaunchStage::Polling, LaunchEvent::Clock(ms))
            == LaunchStage::Killing,
        ms < DEADLINE_MS ==> launch_plan(next(LaunchStage::Polling, LaunchEvent::Clock(ms)))
            == LaunchPlan::Locate,
{
}

} // verus!
