use vstd::prelude::*;

use crate::cli::is_blank;
use crate::config::ConfigurationKey;
use crate::errors::ScaffoldError;
use crate::registry::TemplateRegistry;

verus! {

/// One subprocess invocation: a program, its arguments in order, and the
/// directory to run it in, given as path components relative to the
/// invocation directory (empty: the invocation directory itself). Directory
/// changes travel as data here, never as a shell `cd`, and nothing is passed
/// through a shell, so the project name is never interpreted by one.
pub struct CommandSpec {
    pub program: String,
    pub args: Vec<String>,
    pub working_dir: Vec<String>,
}

/// The clone step: `git clone <address> <name>`, run in the invocation
/// directory, so the template lands in `./<name>`.
pub open spec fn is_clone_command(c: CommandSpec, address: Seq<char>, name: Seq<char>) -> bool {
    &&& c.program@ == "git"@
    &&& c.args@.len() == 3
    &&& c.args@[0]@ == "clone"@
    &&& c.args@[1]@ == address
    &&& c.args@[2]@ == name
    &&& c.working_dir@.len() == 0
}

/// The step that strips the clone's version-control metadata:
/// `rm -rf .git`, run inside the project directory.
pub open spec fn is_remove_vcs_command(c: CommandSpec, name: Seq<char>) -> bool {
    &&& c.program@ == "rm"@
    &&& c.args@.len() == 2
    &&& c.args@[0]@ == "-rf"@
    &&& c.args@[1]@ == ".git"@
    &&& c.working_dir@.len() == 1
    &&& c.working_dir@[0]@ == name
}

/// The frontend dependency installation: `npm install`, run inside the
/// project's `frontend` directory.
pub open spec fn is_install_command(c: CommandSpec, name: Seq<char>) -> bool {
    &&& c.program@ == "npm"@
    &&& c.args@.len() == 1
    &&& c.args@[0]@ == "install"@
    &&& c.working_dir@.len() == 2
    &&& c.working_dir@[0]@ == name
    &&& c.working_dir@[1]@ == "frontend"@
}

/// The frontend production build: `npm run build`, run inside the project's
/// `frontend` directory.
pub open spec fn is_build_command(c: CommandSpec, name: Seq<char>) -> bool {
    &&& c.program@ == "npm"@
    &&& c.args@.len() == 2
    &&& c.args@[0]@ == "run"@
    &&& c.args@[1]@ == "build"@
    &&& c.working_dir@.len() == 2
    &&& c.working_dir@[0]@ == name
    &&& c.working_dir@[1]@ == "frontend"@
}

/// How many subprocess steps a materialization runs when nothing fails.
pub open spec fn step_count() -> int {
    4
}

/// Where a materialization stands.
#[derive(Clone, Copy, Debug, PartialEq, Eq, Structural)]
pub enum SessionStatus {
    /// A step is pending; `current_command` says which.
    Running,
    /// All steps exited successfully.
    Succeeded,
    /// A step failed; `failure` says how, and the partly created project
    /// directory is to be rolled back.
    Failed,
}

/// One materialization of a project: the checked inputs and the gated march
/// through the four subprocess steps. The session decides; the caller runs
/// each command it is handed, reports the exit back, and performs the
/// rollback when the session asks for one. Every step's success gates the
/// next: after a failure no further command is handed out.
pub struct Session {
    project_name: String,
    template_address: String,
    next_step: usize,
    failure: Option<ScaffoldError>,
}

impl Session {
    /// The validated project name.
    pub closed spec fn name(&self) -> Seq<char> {
        self.project_name@
    }

    /// The resolved template repository address.
    pub closed spec fn address(&self) -> Seq<char> {
        self.template_address@
    }

    /// The index of the pending step: 0 clone, 1 strip metadata, 2 install,
    /// 3 build, 4 done.
    pub closed spec fn step(&self) -> int {
        self.next_step as int
    }

    /// The recorded failure, if a step failed.
    pub closed spec fn failure(&self) -> Option<ScaffoldError> {
        self.failure
    }

    pub open spec fn wf(&self) -> bool {
        &&& 0 <= self.step() <= step_count()
        &&& (self.failure() matches Some(e) ==> (e == ScaffoldError::CloneFailed || e
            == ScaffoldError::PostProcessFailed))
        &&& (self.failure() matches Some(e) && e == ScaffoldError::PostProcessFailed
            ==> self.step() > 0)
    }

    pub open spec fn spec_status(&self) -> SessionStatus {
        if self.failure() is Some {
            SessionStatus::Failed
        } else if self.step() == step_count() {
            SessionStatus::Succeeded
        } else {
            SessionStatus::Running
        }
    }

    pub fn status(&self) -> (st: SessionStatus)
        ensures
            st == self.spec_status(),
    {
        if self.failure.is_some() {
            SessionStatus::Failed
        } else if self.next_step == 4 {
            SessionStatus::Succeeded
        } else {
            SessionStatus::Running
        }
    }

    /// Opens a materialization: validates the project name, resolves the
    /// configuration, and refuses a target directory that already exists.
    /// Exactly the session that passes all three checks hands out a clone
    /// command; every refused input produces its own error and no command,
    /// so a blank name or an unknown combination never reaches the clone
    /// step, and an existing directory is never overwritten or merged.
    pub fn new(
        registry: &TemplateRegistry,
        key: &ConfigurationKey,
        project_name: String,
        target_exists: bool,
    ) -> (r: Result<Session, ScaffoldError>)
        requires
            registry.wf(),
        ensures
            r is Ok <==> !is_blank(project_name@) && registry@.contains_key(*key)
                && !target_exists,
            match r {
                Ok(s) => {
                    &&& !is_blank(project_name@)
                    &&& registry@.contains_key(*key)
                    &&& !target_exists
                    &&& s.wf()
                    &&& s.spec_status() == SessionStatus::Running
                    &&& s.step() == 0
                    &&& s.name() == project_name@
                    &&& s.address() == registry@[*key]
                },
                Err(e) => {
                    &&& (e == ScaffoldError::BadArguments <==> is_blank(project_name@))
                    &&& (e == ScaffoldError::UnknownCombination <==> !is_blank(project_name@)
                        && !registry@.contains_key(*key))
                    &&& (e == ScaffoldError::DirectoryCollision <==> !is_blank(project_name@)
                        && registry@.contains_key(*key) && target_exists)
                },
            },
    {
        if crate::cli::check_blank(project_name.as_str()) {
            return Err(ScaffoldError::BadArguments);
        }
        let address = match registry.resolve(key) {
            Ok(address) => address,
            Err(e) => {
                return Err(e);
            },
        };
        if target_exists {
            return Err(ScaffoldError::DirectoryCollision);
        }
        Ok(
            Session {
                project_name,
                template_address: address,
                next_step: 0,
                failure: None,
            },
        )
    }

    /// The pending command: the clone first, then the three gated setup
    /// steps, in order; none once the session has succeeded or failed.
    pub fn current_command(&self) -> (r: Option<CommandSpec>)
        requires
            self.wf(),
        ensures
            match r {
                Some(c) => {
                    &&& self.spec_status() == SessionStatus::Running
                    &&& (self.step() == 0 ==> is_clone_command(c, self.address(), self.name()))
                    &&& (self.step() == 1 ==> is_remove_vcs_command(c, self.name()))
                    &&& (self.step() == 2 ==> is_install_command(c, self.name()))
                    &&& (self.step() == 3 ==> is_build_command(c, self.name()))
                },
                None => self.spec_status() != SessionStatus::Running,
            },
    {
        if self.failure.is_some() || self.next_step >= 4 {
            return None;
        }
        if self.next_step == 0 {
            let mut args: Vec<String> = Vec::new();
            args.push("clone".to_owned());
            args.push(self.template_address.clone());
            args.push(self.project_name.clone());
            Some(
                CommandSpec {
                    program: "git".to_owned(),
                    args,
                    working_dir: Vec::new(),
                },
            )
        } else if self.next_step == 1 {
            let mut args: Vec<String> = Vec::new();
            args.push("-rf".to_owned());
            args.push(".git".to_owned());
            let mut working_dir: Vec<String> = Vec::new();
            working_dir.push(self.project_name.clone());
            Some(
                CommandSpec {
                    program: "rm".to_owned(),
                    args,
                    working_dir,
                },
            )
        } else if self.next_step == 2 {
            let mut args: Vec<String> = Vec::new();
            args.push("install".to_owned());
            let mut working_dir: Vec<String> = Vec::new();
            working_dir.push(self.project_name.clone());
            working_dir.push("frontend".to_owned());
            Some(
                CommandSpec {
                    program: "npm".to_owned(),
                    args,
                    working_dir,
                },
            )
        } else {
            let mut args: Vec<String> = Vec::new();
            args.push("run".to_owned());
            args.push("build".to_owned());
            let mut working_dir: Vec<String> = Vec::new();
            working_dir.push(self.project_name.clone());
            working_dir.push("frontend".to_owned());
            Some(
                CommandSpec {
                    program: "npm".to_owned(),
                    args,
                    working_dir,
                },
            )
        }
    }

    /// Records the exit of the pending step. Success advances to the next
    /// step; failure ends the session with the clone error on the first step
    /// and the post-processing error on a later one, and no further command
    /// is handed out after that.
    pub fn record_exit(&mut self, success: bool)
        requires
            old(self).wf(),
            old(self).spec_status() == SessionStatus::Running,
        ensures
            final(self).wf(),
            final(self).name() == old(self).name(),
            final(self).address() == old(self).address(),
            success ==> final(self).failure() is None && final(self).step() == old(self).step()
                + 1,
            !success ==> final(self).spec_status() == SessionStatus::Failed && final(self).step()
                == old(self).step(),
            !success && old(self).step() == 0 ==> final(self).failure() == Some(
                ScaffoldError::CloneFailed,
            ),
            !success && old(self).step() > 0 ==> final(self).failure() == Some(
                ScaffoldError::PostProcessFailed,
            ),
    {
        if success {
            self.next_step += 1;
        } else if self.next_step == 0 {
            self.failure = Some(ScaffoldError::CloneFailed);
        } else {
            self.failure = Some(ScaffoldError::PostProcessFailed);
        }
    }

    /// The recorded failure, if any.
    pub fn error(&self) -> (r: Option<ScaffoldError>)
        ensures
            r == self.failure(),
    {
        self.failure
    }

    /// Whether the partly created project directory is to be removed: exactly
    /// after a failure, which can only happen once the clone has begun. The
    /// collision check refused a pre-existing directory before any command
    /// ran, so the rollback never touches a directory this session did not
    /// create.
    pub fn needs_rollback(&self) -> (r: bool)
        ensures
            r == (self.spec_status() == SessionStatus::Failed),
    {
        self.failure.is_some()
    }
}

/// The fixed progress line printed for each line the clone subprocess writes.
pub open spec fn progress_text() -> Seq<char> {
    "The project is being created...."@
}

pub fn progress_line() -> (s: String)
    ensures
        s@ == progress_text(),
{
    "The project is being created....".to_owned()
}

/// One progress message per line of clone output: exactly `line_count`
/// messages, each the fixed progress text, independent of what the lines
/// held.
pub fn progress_messages(line_count: usize) -> (messages: Vec<String>)
    ensures
        messages@.len() == line_count,
        forall|i: int| 0 <= i < messages@.len() ==> messages@[i]@ == progress_text(),
{
    let mut messages: Vec<String> = Vec::new();
    let mut i: usize = 0;
    while i < line_count
        invariant
            i <= line_count,
            messages@.len() == i,
            forall|j: int| 0 <= j < messages@.len() ==> messages@[j]@ == progress_text(),
        decreases line_count - i,
    {
        messages.push(progress_line());
        i += 1;
    }
    messages
}

/// The closing report, naming the commands that start the backend and the
/// frontend development servers.
pub open spec fn success_text() -> Seq<char> {
    "Project is created successfully! For running the backend development server use cargo run or cargo watch. Then run the frontend development server independently by using npm run dev"@
}

pub fn success_message() -> (s: String)
    ensures
        s@ == success_text(),
{
    "Project is created successfully! For running the backend development server use cargo run or cargo watch. Then run the frontend development server independently by using npm run dev".to_owned()
}

} // verus!
