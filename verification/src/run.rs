//! From the command line to a transfer that is ready to start.

use crate::cli::{Cli, Commands, CommandsView};
use crate::error::{ErrorView, ScpError};
use crate::options::{address, Mode, OptsView, SshOpts};
use crate::text::text_of;
use crate::utils::{home_dir, resolve_private_key, resolved_key};
use vstd::prelude::*;

verus! {

/// A transfer as the command line asks for it.
#[derive(Debug, PartialEq, Eq)]
pub struct Job {
    pub ssh_opts: SshOpts,
    pub mode: Mode,
    pub source: String,
    pub destination: String,
}

/// A [`Job`] with the text of its strings.
pub struct JobView {
    pub ssh_opts: OptsView,
    pub mode: Mode,
    pub source: Seq<char>,
    pub destination: Seq<char>,
}

impl View for Job {
    type V = JobView;

    open spec fn view(&self) -> JobView {
        JobView {
            ssh_opts: self.ssh_opts@,
            mode: self.mode,
            source: self.source@,
            destination: self.destination@,
        }
    }
}

/// The view of a job or of the error in its place.
pub open spec fn job_result_view(job: Result<Job, ScpError>) -> Result<JobView, ErrorView> {
    match job {
        Ok(job) => Ok(job@),
        Err(error) => Err(error@),
    }
}

/// The job that `command` asks for when the home directory of the user is
/// `home`. The host is reached at port 22. Files that exist are replaced
/// where the command says so and left alone where it does not. The private
/// key is the one that was named, or else the default one in the home
/// directory; with neither, there is no job.
pub open spec fn prepared(command: CommandsView, home: Option<Seq<char>>) -> Result<
    JobView,
    ErrorView,
> {
    match command {
        CommandsView::Receive { source, destination, host, user, private_key, replace } => {
            match resolved_key(private_key, home) {
                Ok(key) => Ok(
                    JobView {
                        ssh_opts: OptsView {
                            host: host + ":22"@,
                            username: user,
                            private_key: key,
                        },
                        mode: if replace {
                            Mode::Replace
                        } else {
                            Mode::Ignore
                        },
                        source,
                        destination,
                    },
                ),
                Err(error) => Err(error),
            }
        },
    }
}

/// The job that `args` asks for when the home directory of the user is
/// `home`.
pub fn prepare_with_home(args: Cli, home: &Option<String>) -> (job: Result<Job, ScpError>)
    ensures
        job_result_view(job) == prepared(args@, text_of(*home)),
{
    match args.command {
        Commands::Receive { source, destination, host, user, private_key, replace } => {
            match resolve_private_key(&private_key, home) {
                Ok(key) => Ok(
                    Job {
                        ssh_opts: SshOpts {
                            host: address(host.as_str()),
                            username: user,
                            private_key: key,
                        },
                        mode: Mode::from_replace_flag(replace),
                        source,
                        destination,
                    },
                ),
                Err(error) => Err(error),
            }
        },
    }
}

/// The job that `args` asks for. The environment is asked for the home
/// directory of the user only where no private key was named; without a key
/// and without a home directory there is no job, and nothing was connected
/// to.
pub fn prepare(args: Cli) -> (job: Result<Job, ScpError>)
    ensures
        exists|home: Option<Seq<char>>| job_result_view(job) == #[trigger] prepared(args@, home),
{
    let home = match &args.command {
        Commands::Receive { private_key: Some(_), .. } => None,
        Commands::Receive { private_key: None, .. } => home_dir(),
    };
    let ghost asked = args@;
    let job = prepare_with_home(args, &home);
    assert(job_result_view(job) == prepared(asked, text_of(home)));
    job
}

} // verus!
