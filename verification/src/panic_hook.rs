//! Crash diagnostics: what is recorded when the process panics, and the
//! guard that keeps the hook from being installed twice.
//!
//! The hook itself is installed by the program, which owns the process-wide
//! handler. On a panic it records one report, counts the panic, and hands
//! over to the handler that was installed before it.

use vstd::prelude::*;

verus! {

/// Where in the source a panic was raised.
#[derive(Debug)]
pub struct PanicLocation {
    pub file: String,
    pub line: u32,
    pub column: u32,
}

/// Mathematical model of a [`PanicLocation`].
pub struct PanicLocationView {
    pub file: Seq<char>,
    pub line: u32,
    pub column: u32,
}

impl View for PanicLocation {
    type V = PanicLocationView;

    open spec fn view(&self) -> PanicLocationView {
        PanicLocationView { file: self.file@, line: self.line, column: self.column }
    }
}

/// The model of an optional location.
pub open spec fn opt_location(o: Option<PanicLocation>) -> Option<PanicLocationView> {
    match o {
        Some(location) => Some(location@),
        None => None,
    }
}

/// The diagnostic record of one panic.
#[derive(Debug)]
pub struct PanicReport {
    /// The panic message, as a person reads it.
    pub message: String,
    /// The call stack at the moment of the panic.
    pub backtrace: String,
    /// Where the panic was raised, when that is known.
    pub location: Option<PanicLocation>,
}

/// Mathematical model of a [`PanicReport`].
pub struct PanicReportView {
    pub message: Seq<char>,
    pub backtrace: Seq<char>,
    pub location: Option<PanicLocationView>,
}

impl View for PanicReport {
    type V = PanicReportView;

    open spec fn view(&self) -> PanicReportView {
        PanicReportView {
            message: self.message@,
            backtrace: self.backtrace@,
            location: opt_location(self.location),
        }
    }
}

/// Takes the call stack of the current thread with `backtrace::Backtrace::new`
/// and renders it with the `Debug` formatting of `backtrace::Backtrace`.
/// What the text holds depends on the machine and the moment, so nothing is
/// claimed of it.
#[verifier::external_body]
fn capture_backtrace() -> (trace: String) {
    let backtrace = backtrace::Backtrace::new();
    format!("{backtrace:?}")
}

impl PanicReport {
    /// A report of the given parts.
    pub fn new(message: String, backtrace: String, location: Option<PanicLocation>) -> (r:
        PanicReport)
        ensures
            r@ == (PanicReportView {
                message: message@,
                backtrace: backtrace@,
                location: opt_location(location),
            }),
    {
        PanicReport { message, backtrace, location }
    }

    /// A report of a panic that is happening now, on this thread: the given
    /// message and location, and the call stack as it is at this moment.
    pub fn capture(message: String, location: Option<PanicLocation>) -> (r: PanicReport)
        ensures
            r@.message == message@,
            r@.location == opt_location(location),
    {
        let backtrace = capture_backtrace();
        PanicReport::new(message, backtrace, location)
    }
}

/// The name of the counter that counts the panics of the process.
pub fn panic_counter_name() -> (r: &'static str)
    ensures
        r@ == "panic_counter"@,
{
    "panic_counter"
}

/// One handler in the chain that a panic runs through.
#[derive(Clone, Copy, Debug, PartialEq, Eq, Structural)]
pub enum Handler {
    /// The diagnostics hook: records a report, counts the panic, then hands
    /// over to the handler behind it.
    Diagnostics,
    /// The handler of the platform, with which the chain ends.
    Platform,
}

/// The chain of a process in which the hook was never installed.
pub open spec fn bare_chain() -> Seq<Handler> {
    seq![Handler::Platform]
}

/// The chain of a process in which the hook is installed.
pub open spec fn hooked_chain() -> Seq<Handler> {
    seq![Handler::Diagnostics, Handler::Platform]
}

/// How often `handler` stands in `chain`: the number of times it runs when
/// one panic goes through the chain.
pub open spec fn runs_per_panic(chain: Seq<Handler>, handler: Handler) -> nat
    decreases chain.len(),
{
    if chain.len() == 0 {
        0
    } else {
        runs_per_panic(chain.drop_last(), handler) + if chain.last() == handler {
            1nat
        } else {
            0nat
        }
    }
}

/// What the program has to do when asked to install the hook.
#[derive(Clone, Copy, Debug, PartialEq, Eq, Structural)]
pub enum InstallAction {
    /// Take the current handler and put the diagnostics hook before it.
    Wrap,
    /// Nothing: the hook is in place.
    Skip,
}

/// The guard of the process-wide hook. It remembers whether the hook was
/// installed, so that the hook is installed once however often it is asked
/// for.
#[derive(Debug)]
pub struct HookRegistry {
    installed: bool,
}

impl View for HookRegistry {
    type V = Seq<Handler>;

    /// The handler chain of the process.
    closed spec fn view(&self) -> Seq<Handler> {
        if self.installed {
            hooked_chain()
        } else {
            bare_chain()
        }
    }
}

/// The chain after a request to install the hook into `chain`: the hook is
/// put before a bare chain, and any other chain is left as it is.
pub open spec fn after_install(chain: Seq<Handler>) -> Seq<Handler> {
    if chain == bare_chain() {
        hooked_chain()
    } else {
        chain
    }
}

/// The chain after `requests` requests to install the hook into `chain`.
pub open spec fn after_installs(chain: Seq<Handler>, requests: nat) -> Seq<Handler>
    decreases requests,
{
    if requests == 0 {
        chain
    } else {
        after_install(after_installs(chain, (requests - 1) as nat))
    }
}

impl HookRegistry {
    /// The guard of a process in which the hook is not installed.
    pub fn new() -> (r: HookRegistry)
        ensures
            r@ == bare_chain(),
    {
        HookRegistry { installed: false }
    }

    /// Whether the hook is installed.
    pub fn is_installed(&self) -> (r: bool)
        ensures
            r == (self@ == hooked_chain()),
            !r == (self@ == bare_chain()),
    {
        proof {
            assert(bare_chain().len() != hooked_chain().len());
        }
        self.installed
    }
}

/// Asks for the crash-diagnostics hook to be installed in the process that
/// `registry` guards. The first request answers [`InstallAction::Wrap`]: the
/// caller then takes the handler that is in place and puts the hook before
/// it. Every later request answers [`InstallAction::Skip`], and the chain is
/// left as it is. After either the hook counts as installed.
pub fn set_panic_hook(registry: &mut HookRegistry) -> (action: InstallAction)
    ensures
        final(registry)@ == after_install(old(registry)@),
        final(registry)@ == hooked_chain(),
        action == if old(registry)@ == bare_chain() {
            InstallAction::Wrap
        } else {
            InstallAction::Skip
        },
{
    proof {
        assert(bare_chain().len() != hooked_chain().len());
    }
    if registry.installed {
        InstallAction::Skip
    } else {
        registry.installed = true;
        InstallAction::Wrap
    }
}

/// Installing the hook is idempotent.
///
/// However often the hook is asked for in a process that started with the
/// bare chain, once or more, the chain is the same as after the first
/// request: one diagnostics hook before the platform's handler. A panic then
/// gives one report and runs the platform's handler once.
pub proof fn lemma_install_idempotent(requests: nat)
    requires
        requests >= 1,
    ensures
        after_installs(bare_chain(), requests) == hooked_chain(),
        after_installs(bare_chain(), requests) == after_installs(bare_chain(), 1),
        runs_per_panic(after_installs(bare_chain(), requests), Handler::Diagnostics) == 1,
        runs_per_panic(after_installs(bare_chain(), requests), Handler::Platform) == 1,
    decreases requests,
{
    assert(bare_chain().len() != hooked_chain().len());
    reveal_with_fuel(after_installs, 2);
    if requests > 1 {
        lemma_install_idempotent((requests - 1) as nat);
    }
    let chain = hooked_chain();
    reveal_with_fuel(runs_per_panic, 3);
    assert(chain.drop_last() =~= seq![Handler::Diagnostics]);
    assert(chain.drop_last().drop_last() =~= Seq::<Handler>::empty());
}

} // verus!
