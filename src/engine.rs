//! The container's lifecycle: launch, follow, read the exit code, remove.
//! Each step hands back the runtime command to run; the caller runs it and
//! hands back what came of it.

use vstd::prelude::*;

use crate::cli::Args;
use crate::config::Config;
use crate::plan::{
    base_path_wanted, binding_views, mount_root_of, opt_view, plan, plan_fails, planned_run_args,
    push_str, render_run_command, runtime_command, runtime_prefix, rust_cache_wanted, DockerConfig,
    HostFacts, PlanError, ProxyEnv,
};
use crate::text::{parse_i32, parsed_i32, trim_newlines, trim_trailing_newlines, views};

verus! {

/// Where a container's lifecycle stands.
#[derive(PartialEq, Eq, Structural, Clone, Copy, Debug)]
pub enum EngineState {
    Created,
    Launching,
    Running,
    Inspected,
    Cleared,
    Failed,
}

/// Why a launch failed.
pub enum EngineError {
    /// The runtime refused the plan; `output` is what it printed.
    LaunchError { output: String },
    /// Removing the container failed; it may still be running.
    CleanupError { id: String },
}

/// One container, run through `docker`.
pub struct Docker {
    pub config: DockerConfig,
    pub id: Option<String>,
    pub exit_code: Option<i32>,
    pub state: EngineState,
}

/// The command that follows a container's log until it stops.
pub open spec fn logs_args(sudo: bool, id: Seq<char>) -> Seq<Seq<char>> {
    runtime_prefix(sudo) + seq!["logs"@, "-f"@, id]
}

/// The command that asks the runtime for a stopped container's exit code.
pub open spec fn inspect_args(sudo: bool, id: Seq<char>) -> Seq<Seq<char>> {
    runtime_prefix(sudo) + seq!["inspect"@, "-f"@, "{{.State.ExitCode}}"@, id]
}

/// The command that removes a container, running or not.
pub open spec fn remove_args(sudo: bool, id: Seq<char>) -> Seq<Seq<char>> {
    runtime_prefix(sudo) + seq!["rm"@, "-f"@, id]
}

/// The exit code a run reports: the one seen while following the container,
/// else the one the runtime's inspection printed, else `-1`.
pub open spec fn exit_code_of(cached: Option<i32>, inspected: Option<Seq<char>>) -> int {
    match cached {
        Some(c) => c as int,
        None => match inspected {
            Some(out) => match parsed_i32(trim_trailing_newlines(out)) {
                Some(v) => v,
                None => -1,
            },
            None => -1,
        },
    }
}

/// The engine after `clear`: removed when a container was recorded,
/// untouched otherwise.
pub open spec fn cleared(e: Docker) -> Docker {
    if e.id is Some {
        Docker { state: EngineState::Cleared, ..e }
    } else {
        e
    }
}

/// What `clear` asks to run: the removal of the recorded container, if any.
pub open spec fn clear_args(e: Docker) -> Option<Seq<Seq<char>>> {
    match e.id {
        Some(id) => Some(remove_args(!e.config.disable_sudo, id@)),
        None => None,
    }
}

/// The container id a launch printed: its output without trailing line
/// feeds. A successful launch always records it; a failed one only where
/// anything is left, which may name a half-made container.
pub open spec fn launched_id(stdout: Seq<char>, succeeded: bool) -> Option<Seq<char>> {
    let id = trim_trailing_newlines(stdout);
    if succeeded || id.len() > 0 {
        Some(id)
    } else {
        None
    }
}

fn inspect_command(sudo: bool, id: &str) -> (r: Vec<String>)
    ensures
        views(r@) == inspect_args(sudo, id@),
{
    let mut r = runtime_command(sudo);
    push_str(&mut r, "inspect");
    push_str(&mut r, "-f");
    push_str(&mut r, "{{.State.ExitCode}}");
    push_str(&mut r, id);
    assert(views(r@) =~= inspect_args(sudo, id@));
    r
}

fn command_on(sudo: bool, verb: &str, flag: &str, id: &str) -> (r: Vec<String>)
    ensures
        views(r@) == runtime_prefix(sudo) + seq![verb@, flag@, id@],
{
    let mut r = runtime_command(sudo);
    push_str(&mut r, verb);
    push_str(&mut r, flag);
    push_str(&mut r, id);
    assert(views(r@) =~= runtime_prefix(sudo) + seq![verb@, flag@, id@]);
    r
}

impl Docker {
    /// A fresh engine for the given options; nothing launched yet.
    pub fn new(args: &Args, config: &Config) -> (r: Self)
        ensures
            r.state == EngineState::Created,
            r.id is None,
            r.exit_code is None,
            r.config.disable_ssh == args.disable_ssh,
            r.config.disable_sudo == args.disable_sudo,
            r.config.enable_rust_cache == rust_cache_wanted(*args, *config),
            opt_view(r.config.base_path) == base_path_wanted(*args, *config),
            r.config.user@ == args.user@,
            r.config.image@ == args.image@,
            r.config.command@ == args.command@,
    {
        Docker { config: DockerConfig::new(args, config), id: None, exit_code: None, state: EngineState::Created }
    }

    /// Plans the launch and gives the command that starts the container
    /// detached. A plan that cannot be made fails the engine.
    pub fn launch_command(
        &mut self,
        host: &HostFacts,
        env: &ProxyEnv,
        discovered_root: Option<String>,
    ) -> (r: Result<Vec<String>, PlanError>)
        requires
            old(self).state == EngineState::Created,
            old(self).config.base_path is Some || discovered_root is Some,
        ensures
            final(self).config == old(self).config,
            final(self).id == old(self).id,
            final(self).exit_code == old(self).exit_code,
            r is Err <==> plan_fails(
                old(self).config,
                *host,
                mount_root_of(old(self).config, discovered_root),
            ),
            r matches Ok(argv) ==> views(argv@) == planned_run_args(
                old(self).config,
                *host,
                *env,
                mount_root_of(old(self).config, discovered_root),
            ),
            final(self).state == if r is Ok {
                EngineState::Launching
            } else {
                EngineState::Failed
            },
    {
        match plan(&self.config, host, env, discovered_root) {
            Ok(p) => {
                assert(p.bindings@.len() == binding_views(p.bindings@).len());
                self.state = EngineState::Launching;
                Ok(render_run_command(&p, !self.config.disable_sudo))
            },
            Err(e) => {
                self.state = EngineState::Failed;
                Err(e)
            },
        }
    }

    /// Records how the launch went. The container id it printed is kept
    /// (so that a half-made container is still removed); on success the
    /// engine runs and the command that follows its log is returned.
    pub fn record_launch(&mut self, stdout: &str, succeeded: bool) -> (r: Result<
        Vec<String>,
        EngineError,
    >)
        requires
            old(self).state == EngineState::Launching,
        ensures
            final(self).config == old(self).config,
            final(self).exit_code == old(self).exit_code,
            opt_view(final(self).id) == launched_id(stdout@, succeeded),
            r is Ok <==> succeeded,
            r matches Ok(argv) ==> views(argv@) == logs_args(
                !old(self).config.disable_sudo,
                trim_trailing_newlines(stdout@),
            ),
            r is Err ==> r matches Err(EngineError::LaunchError { .. }),
            r matches Err(EngineError::LaunchError { output }) ==> output@ == trim_trailing_newlines(
                stdout@,
            ),
            final(self).state == if succeeded {
                EngineState::Running
            } else {
                EngineState::Failed
            },
    {
        let id = trim_newlines(stdout);
        if succeeded || id.unicode_len() > 0 {
            self.id = Some(id.clone());
        } else {
            self.id = None;
        }
        if !succeeded {
            self.state = EngineState::Failed;
            return Err(EngineError::LaunchError { output: id });
        }
        self.state = EngineState::Running;
        Ok(command_on(!self.config.disable_sudo, "logs", "-f", id.as_str()))
    }

    /// Records the exit status seen when the log follower stopped.
    pub fn record_exit_status(&mut self, status: Option<i32>)
        requires
            old(self).state == EngineState::Running,
        ensures
            final(self).config == old(self).config,
            final(self).id == old(self).id,
            final(self).exit_code == status,
            final(self).state == EngineState::Inspected,
    {
        self.exit_code = status;
        self.state = EngineState::Inspected;
    }

    /// Records how the removal that `clear` asked for went: a failed one is
    /// a `CleanupError` naming the container.
    pub fn record_removal(&self, succeeded: bool) -> (r: Result<(), EngineError>)
        requires
            self.id is Some,
        ensures
            r is Ok <==> succeeded,
            r matches Err(EngineError::CleanupError { id }) ==> Some(id@) == opt_view(self.id),
            r is Err ==> r matches Err(EngineError::CleanupError { .. }),
    {
        if succeeded {
            Ok(())
        } else {
            match &self.id {
                Some(id) => Err(EngineError::CleanupError { id: id.clone() }),
                None => Ok(()),
            }
        }
    }
}

/// The steps every engine offers once its container was launched.
pub trait Engine {
    /// The runtime command whose output gives the exit code, where one is
    /// needed: none when the code is already known or nothing was launched.
    fn exit_code_query(&self) -> Option<Vec<String>>;

    /// The exit code of the run, given what the query printed (`None` where
    /// it could not be run or its output was not text). Best-effort: `-1`
    /// when nothing usable is known.
    fn exit_code(&self, inspected: Option<&str>) -> i32;

    /// Forgets the container and gives the command that removes it; nothing
    /// where no container was recorded.
    fn clear(&mut self) -> Option<Vec<String>>;
}

impl Engine for Docker {
    fn exit_code_query(&self) -> (r: Option<Vec<String>>)
        ensures
            self.exit_code is Some ==> r is None,
            self.exit_code is None ==> match self.id {
                Some(id) => r matches Some(argv) && views(argv@) == inspect_args(
                    !self.config.disable_sudo,
                    id@,
                ),
                None => r is None,
            },
    {
        if self.exit_code.is_some() {
            return None;
        }
        match &self.id {
            Some(id) => Some(
                inspect_command(!self.config.disable_sudo, id.as_str()),
            ),
            None => None,
        }
    }

    fn exit_code(&self, inspected: Option<&str>) -> (r: i32)
        ensures
            r == exit_code_of(
                self.exit_code,
                match inspected {
                    Some(s) => Some(s@),
                    None => None,
                },
            ),
    {
        match self.exit_code {
            Some(c) => c,
            None => match inspected {
                Some(out) => {
                    let trimmed = trim_newlines(out);
                    match parse_i32(trimmed.as_str()) {
                        Some(v) => v,
                        None => -1,
                    }
                },
                None => -1,
            },
        }
    }

    fn clear(&mut self) -> (r: Option<Vec<String>>)
        ensures
            *final(self) == cleared(*old(self)),
            match clear_args(*old(self)) {
                Some(args) => r matches Some(argv) && views(argv@) == args,
                None => r is None,
            },
    {
        match &self.id {
            Some(id) => {
                let argv = command_on(!self.config.disable_sudo, "rm", "-f", id.as_str());
                self.state = EngineState::Cleared;
                Some(argv)
            },
            None => None,
        }
    }
}

/// Clearing an engine that never recorded a container removes nothing and
/// leaves it as it was, and so does clearing it a second time.
pub proof fn lemma_clear_unlaunched_is_noop(e: Docker)
    requires
        e.id is None,
    ensures
        clear_args(e) is None,
        cleared(e) == e,
        clear_args(cleared(e)) is None,
        cleared(cleared(e)) == e,
{
}

/// An exit code captured while following the run, zero included, is the one
/// reported, whatever the inspection prints or whether it ran at all; where
/// the inspection prints that same code, the two paths agree.
pub proof fn lemma_exit_code_round_trip(code: i32, inspected: Seq<char>)
    ensures
        exit_code_of(Some(code), Some(inspected)) == code,
        exit_code_of(Some(code), None) == code,
        parsed_i32(trim_trailing_newlines(inspected)) == Some(code as int) ==> exit_code_of(
            None,
            Some(inspected),
        ) == exit_code_of(Some(code), Some(inspected)),
{
}

} // verus!
