//! The `repl` subcommand: an interactive client that attaches to a running
//! instance. The client itself lives outside this library; here is what its
//! command line says and what it runs with.

use crate::error::Error;
use crate::logging::{LoggingOptions, LoggingOptionsView};
use crate::options::{Options, OptionsView};
use crate::text::{clone_opt_text, opt_text};
use vstd::prelude::*;

verus! {

/// The command line of the `repl` subcommand, as parsed.
#[derive(Debug)]
pub struct REPL {
    /// gRPC address of the instance to attach to.
    pub grpc_addr: String,
    /// Address of the metadata service, for a distributed deployment.
    pub meta_addr: Option<String>,
    /// Whether the helpers of the interactive input are switched off.
    pub disable_helper: bool,
}

impl Clone for REPL {
    fn clone(&self) -> (r: REPL)
        ensures
            r == *self,
    {
        REPL {
            grpc_addr: self.grpc_addr.clone(),
            meta_addr: clone_opt_text(&self.meta_addr),
            disable_helper: self.disable_helper,
        }
    }
}

/// What the attach client is started with.
#[derive(Debug)]
pub struct AttachCommand {
    pub grpc_addr: String,
    pub meta_addr: Option<String>,
    pub disable_helper: bool,
}

/// Mathematical model of an [`AttachCommand`].
pub struct AttachCommandView {
    pub grpc_addr: Seq<char>,
    pub meta_addr: Option<Seq<char>>,
    pub disable_helper: bool,
}

impl View for AttachCommand {
    type V = AttachCommandView;

    open spec fn view(&self) -> AttachCommandView {
        AttachCommandView {
            grpc_addr: self.grpc_addr@,
            meta_addr: opt_text(self.meta_addr),
            disable_helper: self.disable_helper,
        }
    }
}

impl REPL {
    /// The request to attach that this command line stands for: the same
    /// target, the same metadata service, the same choice of helpers.
    pub open spec fn attach(self) -> AttachCommandView {
        AttachCommandView {
            grpc_addr: self.grpc_addr@,
            meta_addr: opt_text(self.meta_addr),
            disable_helper: self.disable_helper,
        }
    }

    /// Turns the command line into the request that the attach client is
    /// started with. Connecting and the dialogue that follows are the
    /// caller's part.
    pub fn execute(self) -> (r: AttachCommand)
        ensures
            r@ == self.attach(),
    {
        AttachCommand {
            grpc_addr: self.grpc_addr,
            meta_addr: self.meta_addr,
            disable_helper: self.disable_helper,
        }
    }

    /// The options of the client: the default logging policy, whatever the
    /// command line says. Never fails.
    pub fn load_options(&self) -> (r: Result<Options, Error>)
        ensures
            r matches Ok(options) && options@ == OptionsView::Cli(
                LoggingOptionsView::default_value(),
            ),
    {
        let logging_opts = LoggingOptions::default();
        Ok(Options::Cli(Box::new(logging_opts)))
    }
}

} // verus!
