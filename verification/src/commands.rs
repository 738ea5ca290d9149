//! The subcommands of the program.

use crate::error::{Error, ErrorView};
use crate::layer::LayerSource;
use crate::logging::LoggingOptionsView;
use crate::options::{Options, OptionsView};
use crate::startup::{Orchestrator, OrchestratorView, ProgressView};
use crate::subcmd::repl::{AttachCommand, AttachCommandView, REPL};
use crate::subcmd::standalone::Standalone;
use vstd::pervasive::unreached;
use vstd::prelude::*;
use vstd::string::StringExecFns;

verus! {

/// A parsed subcommand.
#[derive(Debug)]
pub enum Commands {
    Standalone(Standalone),
    REPL(REPL),
}

/// What is to be run for a subcommand.
#[derive(Debug)]
pub enum Launch {
    /// A standalone launch, with its first stage due.
    Standalone(Orchestrator),
    /// An interactive client, to be attached as the request says.
    Attach(AttachCommand),
}

/// Mathematical model of a [`Launch`].
pub enum LaunchView {
    Standalone(OrchestratorView),
    Attach(AttachCommandView),
}

impl View for Launch {
    type V = LaunchView;

    open spec fn view(&self) -> LaunchView {
        match *self {
            Launch::Standalone(launch) => LaunchView::Standalone(launch@),
            Launch::Attach(command) => LaunchView::Attach(command@),
        }
    }
}

impl Commands {
    /// The name under which the subcommand is logged.
    pub open spec fn label(self) -> Seq<char> {
        match self {
            Commands::Standalone(_) => "standalone"@,
            Commands::REPL(_) => "repl"@,
        }
    }

    /// The options that the subcommand resolves to: those of a standalone
    /// launch for `Standalone`, those of a client for `REPL`.
    pub open spec fn loaded(self, file: LayerSource, env: LayerSource) -> Result<
        OptionsView,
        ErrorView,
    > {
        match self {
            Commands::Standalone(cmd) => match cmd.loaded(file, env) {
                Ok(bundle) => Ok(OptionsView::Standalone(bundle)),
                Err(error) => Err(error),
            },
            Commands::REPL(_) => Ok(OptionsView::Cli(LoggingOptionsView::default_value())),
        }
    }

    /// What is to be run for the subcommand: for `Standalone` a launch with
    /// the bundle that the sources and the command line resolve to and the
    /// first stage due, for `REPL` the request to attach.
    pub open spec fn planned(self, file: LayerSource, env: LayerSource) -> Result<
        LaunchView,
        ErrorView,
    > {
        match self {
            Commands::Standalone(cmd) => match cmd.loaded(file, env) {
                Ok(bundle) => Ok(
                    LaunchView::Standalone(
                        OrchestratorView { options: bundle, progress: ProgressView::initial() },
                    ),
                ),
                Err(error) => Err(error),
            },
            Commands::REPL(cmd) => Ok(LaunchView::Attach(cmd.attach())),
        }
    }

    /// The name under which the subcommand is logged.
    pub fn name(&self) -> (r: String)
        ensures
            r@ == self.label(),
    {
        match self {
            Commands::Standalone(_) => String::from_str("standalone"),
            Commands::REPL(_) => String::from_str("repl"),
        }
    }

    /// Resolves the options that the subcommand runs with. The sources are
    /// read for a standalone launch only; a client ignores them. The kind of
    /// options returned always is that of the subcommand.
    pub fn load_options(&self, file: &LayerSource, env: &LayerSource) -> (r: Result<Options, Error>)
        ensures
            match self.loaded(*file, *env) {
                Ok(expected) => r matches Ok(options) && options@ == expected,
                Err(error) => r matches Err(e) && e@ == error,
            },
            r matches Ok(options) ==> (options is Standalone <==> *self is Standalone),
            r matches Ok(options) ==> (options is Cli <==> *self is REPL),
    {
        match self {
            Commands::Standalone(cmd) => cmd.load_options(file, env),
            Commands::REPL(cmd) => cmd.load_options(),
        }
    }

    /// Resolves the options of the subcommand and prepares what is to be
    /// run with them. Fails exactly when the options cannot be resolved,
    /// which only a standalone launch can do.
    pub fn execute(self, file: &LayerSource, env: &LayerSource) -> (r: Result<Launch, Error>)
        ensures
            match self.planned(*file, *env) {
                Ok(expected) => r matches Ok(launch) && launch@ == expected,
                Err(error) => r matches Err(e) && e@ == error,
            },
    {
        let opts = match self.load_options(file, env) {
            Ok(opts) => opts,
            Err(error) => {
                return Err(error);
            },
        };
        match (self, opts) {
            (Commands::Standalone(cmd), Options::Standalone(mix)) => {
                Ok(Launch::Standalone(cmd.execute(*mix)))
            },
            (Commands::REPL(cmd), Options::Cli(_)) => Ok(Launch::Attach(cmd.execute())),
            _ => unreached(),
        }
    }
}

} // verus!
