//! The start-up sequence of a standalone process, as a state machine.
//!
//! The subsystems are built and started by the caller; this module decides
//! which stage comes next and what a failure means. A stage is only ever
//! asked for once every stage before it has completed, and after the first
//! failure none is asked for again.

use crate::error::{Error, ErrorView};
use crate::options::{MixOptions, MixOptionsView};
use vstd::prelude::*;
use vstd::string::StringExecFns;

verus! {

/// One step of the start-up sequence.
#[derive(Clone, Copy, Debug, PartialEq, Eq, Structural)]
pub enum Stage {
    /// Create the data directory, with its parents, if it is not there.
    DirectoryEnsure,
    /// Set up the metadata store and the procedure manager.
    MetadataBootstrap,
    /// Build the storage tier over the metadata store.
    StorageBuild,
    /// Set up the catalog over the metadata store and the local region
    /// server, and create its metadata tables.
    CatalogInit,
    /// Build the frontend instance.
    FrontendBuild,
    /// Let the frontend prepare its listeners, without accepting connections.
    ServerWiring,
    /// Start the storage tier.
    StorageStart,
    /// Start the procedure manager.
    ProcedureStart,
    /// Start the frontend, which begins to accept connections.
    FrontendStart,
}

/// The stages in the order in which they run.
pub open spec fn startup_order() -> Seq<Stage> {
    seq![
        Stage::DirectoryEnsure,
        Stage::MetadataBootstrap,
        Stage::StorageBuild,
        Stage::CatalogInit,
        Stage::FrontendBuild,
        Stage::ServerWiring,
        Stage::StorageStart,
        Stage::ProcedureStart,
        Stage::FrontendStart,
    ]
}

impl Stage {
    /// Where the stage stands in [`startup_order`].
    pub open spec fn position(self) -> int {
        match self {
            Stage::DirectoryEnsure => 0,
            Stage::MetadataBootstrap => 1,
            Stage::StorageBuild => 2,
            Stage::CatalogInit => 3,
            Stage::FrontendBuild => 4,
            Stage::ServerWiring => 5,
            Stage::StorageStart => 6,
            Stage::ProcedureStart => 7,
            Stage::FrontendStart => 8,
        }
    }

    /// The stage that follows, if any.
    pub open spec fn successor(self) -> Option<Stage> {
        if self.position() + 1 < startup_order().len() {
            Some(startup_order()[self.position() + 1])
        } else {
            None
        }
    }

    /// The error that a failure of this stage amounts to.
    pub open spec fn failure(self, data_home: Seq<char>, cause: Seq<char>) -> ErrorView {
        match self {
            Stage::DirectoryEnsure => ErrorView::StorageDir { dir: data_home, cause },
            Stage::MetadataBootstrap => ErrorView::MetadataInit { cause },
            Stage::StorageBuild => ErrorView::StorageBuild { cause },
            Stage::CatalogInit => ErrorView::CatalogInit { cause },
            Stage::FrontendBuild => ErrorView::FrontendBuild { cause },
            Stage::ServerWiring => ErrorView::ServerWire { cause },
            Stage::StorageStart => ErrorView::StorageStart { cause },
            Stage::ProcedureStart => ErrorView::ProcedureStart { cause },
            Stage::FrontendStart => ErrorView::FrontendStart { cause },
        }
    }

    /// The stage with which every launch begins.
    pub fn first() -> (r: Stage)
        ensures
            r == startup_order()[0],
    {
        Stage::DirectoryEnsure
    }

    /// The number of stages before this one.
    pub fn index(self) -> (r: usize)
        ensures
            r == self.position(),
            r < startup_order().len(),
            startup_order()[r as int] == self,
    {
        match self {
            Stage::DirectoryEnsure => 0,
            Stage::MetadataBootstrap => 1,
            Stage::StorageBuild => 2,
            Stage::CatalogInit => 3,
            Stage::FrontendBuild => 4,
            Stage::ServerWiring => 5,
            Stage::StorageStart => 6,
            Stage::ProcedureStart => 7,
            Stage::FrontendStart => 8,
        }
    }

    /// The stage that follows this one, `None` after the last.
    pub fn next(self) -> (r: Option<Stage>)
        ensures
            r == self.successor(),
    {
        match self {
            Stage::DirectoryEnsure => Some(Stage::MetadataBootstrap),
            Stage::MetadataBootstrap => Some(Stage::StorageBuild),
            Stage::StorageBuild => Some(Stage::CatalogInit),
            Stage::CatalogInit => Some(Stage::FrontendBuild),
            Stage::FrontendBuild => Some(Stage::ServerWiring),
            Stage::ServerWiring => Some(Stage::StorageStart),
            Stage::StorageStart => Some(Stage::ProcedureStart),
            Stage::ProcedureStart => Some(Stage::FrontendStart),
            Stage::FrontendStart => None,
        }
    }

    /// Wraps the cause of this stage's failure into the error of the stage.
    /// The data directory is named where its creation failed.
    pub fn fail(self, data_home: &String, cause: &String) -> (r: Error)
        ensures
            r@ == self.failure(data_home@, cause@),
    {
        let cause = cause.clone();
        match self {
            Stage::DirectoryEnsure => Error::StorageDir { dir: data_home.clone(), cause },
            Stage::MetadataBootstrap => Error::MetadataInit { cause },
            Stage::StorageBuild => Error::StorageBuild { cause },
            Stage::CatalogInit => Error::CatalogInit { cause },
            Stage::FrontendBuild => Error::FrontendBuild { cause },
            Stage::ServerWiring => Error::ServerWire { cause },
            Stage::StorageStart => Error::StorageStart { cause },
            Stage::ProcedureStart => Error::ProcedureStart { cause },
            Stage::FrontendStart => Error::FrontendStart { cause },
        }
    }
}

/// The directory of the metadata store below the data home.
pub fn metadata_store_dir(store_dir: &str) -> (r: String)
    ensures
        r@ == store_dir@ + "/metadata"@,
{
    let mut dir = String::from_str(store_dir);
    dir.append("/metadata");
    dir
}

/// How a stage ended.
#[derive(Debug)]
pub enum StageOutcome {
    Completed,
    Failed { cause: String },
}

/// Mathematical model of a [`StageOutcome`].
pub enum StageOutcomeView {
    Completed,
    Failed { cause: Seq<char> },
}

impl View for StageOutcome {
    type V = StageOutcomeView;

    open spec fn view(&self) -> StageOutcomeView {
        match *self {
            StageOutcome::Completed => StageOutcomeView::Completed,
            StageOutcome::Failed { cause } => StageOutcomeView::Failed { cause: cause@ },
        }
    }
}

/// How far a launch has come.
#[derive(Debug)]
pub enum Progress {
    /// The stage is due: it is to be run next, or running.
    Pending(Stage),
    /// Every stage has completed.
    Started,
    /// A stage failed; nothing runs after it.
    Aborted(Error),
}

/// Mathematical model of a [`Progress`].
pub enum ProgressView {
    Pending(Stage),
    Started,
    Aborted(ErrorView),
}

impl View for Progress {
    type V = ProgressView;

    open spec fn view(&self) -> ProgressView {
        match *self {
            Progress::Pending(stage) => ProgressView::Pending(stage),
            Progress::Started => ProgressView::Started,
            Progress::Aborted(error) => ProgressView::Aborted(error@),
        }
    }
}

impl ProgressView {
    /// Where every launch begins.
    pub open spec fn initial() -> ProgressView {
        ProgressView::Pending(startup_order()[0])
    }

    /// The stage to run now, if the launch is still under way.
    pub open spec fn due(self) -> Option<Stage> {
        match self {
            ProgressView::Pending(stage) => Some(stage),
            _ => None,
        }
    }

    /// The transition function. While a stage is due its outcome decides:
    /// completion makes the next stage due, or ends the launch after the
    /// last; failure aborts with the error of the stage. A launch that has
    /// ended stays as it is.
    pub open spec fn step(self, data_home: Seq<char>, outcome: StageOutcomeView) -> ProgressView {
        match self {
            ProgressView::Pending(stage) => match outcome {
                StageOutcomeView::Completed => match stage.successor() {
                    Some(next) => ProgressView::Pending(next),
                    None => ProgressView::Started,
                },
                StageOutcomeView::Failed { cause } => ProgressView::Aborted(
                    stage.failure(data_home, cause),
                ),
            },
            _ => self,
        }
    }

    /// The state after a whole sequence of outcomes, taken first to last.
    pub open spec fn run(self, data_home: Seq<char>, outcomes: Seq<StageOutcomeView>) -> ProgressView
        decreases outcomes.len(),
    {
        if outcomes.len() == 0 {
            self
        } else {
            self.run(data_home, outcomes.drop_last()).step(data_home, outcomes.last())
        }
    }

    /// The stages that were run to obtain `outcomes`: each outcome that
    /// arrived while a stage was due stands for one run of that stage.
    pub open spec fn invoked(self, data_home: Seq<char>, outcomes: Seq<StageOutcomeView>) -> Seq<
        Stage,
    >
        decreases outcomes.len(),
    {
        if outcomes.len() == 0 {
            Seq::empty()
        } else {
            let before = outcomes.drop_last();
            match self.run(data_home, before).due() {
                Some(stage) => self.invoked(data_home, before).push(stage),
                None => self.invoked(data_home, before),
            }
        }
    }
}

/// The number of outcomes at the head of `outcomes` that are completions.
pub open spec fn completed_prefix(outcomes: Seq<StageOutcomeView>) -> nat
    decreases outcomes.len(),
{
    if outcomes.len() == 0 {
        0
    } else if outcomes[0] is Completed {
        1 + completed_prefix(outcomes.drop_first())
    } else {
        0
    }
}

/// The models of a list of outcomes.
pub open spec fn outcome_views(outcomes: Seq<StageOutcome>) -> Seq<StageOutcomeView> {
    outcomes.map_values(|o: StageOutcome| o@)
}

/// The launch of one standalone process: the options it runs with and how
/// far it has come.
#[derive(Debug)]
pub struct Orchestrator {
    options: MixOptions,
    progress: Progress,
}

/// Mathematical model of an [`Orchestrator`].
pub struct OrchestratorView {
    pub options: MixOptionsView,
    pub progress: ProgressView,
}

impl View for Orchestrator {
    type V = OrchestratorView;

    closed spec fn view(&self) -> OrchestratorView {
        OrchestratorView { options: self.options@, progress: self.progress@ }
    }
}

impl Orchestrator {
    /// A launch with nothing done yet: the first stage is due.
    pub fn new(options: MixOptions) -> (r: Orchestrator)
        ensures
            r@.options == options@,
            r@.progress == ProgressView::initial(),
    {
        Orchestrator { options, progress: Progress::Pending(Stage::first()) }
    }

    /// The options the launch runs with.
    pub fn options(&self) -> (r: &MixOptions)
        ensures
            r@ == self@.options,
    {
        &self.options
    }

    /// How far the launch has come.
    pub fn progress(&self) -> (r: &Progress)
        ensures
            r@ == self@.progress,
    {
        &self.progress
    }

    /// The stage to run now; `None` once the launch has ended.
    pub fn pending(&self) -> (r: Option<Stage>)
        ensures
            r == self@.progress.due(),
    {
        match &self.progress {
            Progress::Pending(stage) => Some(*stage),
            _ => None,
        }
    }

    /// The directory that the metadata store is to use.
    pub fn metadata_dir(&self) -> (r: String)
        ensures
            r@ == self@.options.data_home + "/metadata"@,
    {
        metadata_store_dir(self.options.data_home.as_str())
    }

    /// Takes in the outcome of the stage that was due and returns the stage
    /// to run next, `None` when there is none. After the launch has ended an
    /// outcome changes nothing.
    pub fn advance(&mut self, outcome: &StageOutcome) -> (next: Option<Stage>)
        ensures
            final(self)@.options == old(self)@.options,
            final(self)@.progress == old(self)@.progress.step(
                old(self)@.options.data_home,
                outcome@,
            ),
            next == final(self)@.progress.due(),
    {
        let stage = match &self.progress {
            Progress::Pending(stage) => *stage,
            _ => {
                return None;
            },
        };
        match outcome {
            StageOutcome::Completed => {
                let next = stage.next();
                match next {
                    Some(following) => {
                        self.progress = Progress::Pending(following);
                    },
                    None => {
                        self.progress = Progress::Started;
                    },
                }
                next
            },
            StageOutcome::Failed { cause } => {
                let error = stage.fail(&self.options.data_home, cause);
                self.progress = Progress::Aborted(error);
                None
            },
        }
    }

    /// How the launch ended: `None` while a stage is still due, `Ok` once
    /// every stage has completed, the error of the failed stage otherwise.
    pub fn conclude(self) -> (r: Option<Result<(), Error>>)
        ensures
            match self@.progress {
                ProgressView::Pending(_) => r is None,
                ProgressView::Started => r == Some(Ok::<(), Error>(())),
                ProgressView::Aborted(error) => r matches Some(Err(e)) && e@ == error,
            },
    {
        match self.progress {
            Progress::Pending(_) => None,
            Progress::Started => Some(Ok(())),
            Progress::Aborted(error) => Some(Err(error)),
        }
    }

    /// Runs a launch against a script in place of real subsystems: the
    /// outcomes are taken in first to last, and each stage that is due when
    /// its outcome is taken in is recorded. Returns the record and the launch
    /// as the script left it.
    pub fn rehearse(options: MixOptions, script: &Vec<StageOutcome>) -> (r: (
        Vec<Stage>,
        Orchestrator,
    ))
        ensures
            r.1@.options == options@,
            r.1@.progress == ProgressView::initial().run(
                options@.data_home,
                outcome_views(script@),
            ),
            r.0@ == ProgressView::initial().invoked(options@.data_home, outcome_views(script@)),
    {
        let ghost home = options@.data_home;
        let ghost all = outcome_views(script@);
        let mut launch = Orchestrator::new(options);
        let mut record: Vec<Stage> = Vec::new();
        let mut i: usize = 0;
        while i < script.len()
            invariant
                i <= script.len(),
                all == outcome_views(script@),
                launch@.options.data_home == home,
                launch@.options == options@,
                launch@.progress == ProgressView::initial().run(home, all.take(i as int)),
                record@ == ProgressView::initial().invoked(home, all.take(i as int)),
            decreases script.len() - i,
        {
            proof {
                let upto = all.take(i + 1);
                assert(upto.drop_last() =~= all.take(i as int));
                assert(upto.last() == script@[i as int]@);
            }
            if let Some(stage) = launch.pending() {
                record.push(stage);
            }
            launch.advance(&script[i]);
            i += 1;
        }
        assert(all.take(i as int) =~= all);
        (record, launch)
    }
}

/// The completions at the head of `outcomes` are completions, there are no
/// more of them than outcomes, and what follows them, if anything, is a
/// failure.
pub proof fn lemma_completed_prefix(outcomes: Seq<StageOutcomeView>)
    ensures
        completed_prefix(outcomes) <= outcomes.len(),
        forall|i: int| 0 <= i < completed_prefix(outcomes) ==> outcomes[i] is Completed,
        completed_prefix(outcomes) < outcomes.len() ==> outcomes[completed_prefix(
            outcomes,
        ) as int] is Failed,
    decreases outcomes.len(),
{
    if outcomes.len() > 0 && outcomes[0] is Completed {
        let rest = outcomes.drop_first();
        lemma_completed_prefix(rest);
        assert forall|i: int| 0 <= i < completed_prefix(outcomes) implies outcomes[i] is Completed by {
            if i > 0 {
                assert(outcomes[i] == rest[i - 1]);
            }
        }
        if completed_prefix(outcomes) < outcomes.len() {
            assert(outcomes[completed_prefix(outcomes) as int] == rest[completed_prefix(
                rest,
            ) as int]);
        }
    }
}

/// A number with the three properties of [`lemma_completed_prefix`] is the
/// number of completions at the head of `outcomes`.
proof fn lemma_completed_prefix_is(outcomes: Seq<StageOutcomeView>, k: int)
    requires
        0 <= k <= outcomes.len(),
        forall|i: int| 0 <= i < k ==> outcomes[i] is Completed,
        k < outcomes.len() ==> outcomes[k] is Failed,
    ensures
        completed_prefix(outcomes) == k,
{
    lemma_completed_prefix(outcomes);
    let c = completed_prefix(outcomes) as int;
    if c < k {
        assert(outcomes[c] is Completed);
    } else if k < c {
        assert(outcomes[k] is Completed);
    }
}

/// Each stage stands in the order at its own position, and is followed by
/// the stage at the next position.
proof fn lemma_order_positions()
    ensures
        startup_order().len() == 9,
        forall|i: int|
            0 <= i < 9 ==> (#[trigger] startup_order()[i]).position() == i,
{
    let order = startup_order();
    assert(order[0].position() == 0);
    assert(order[1].position() == 1);
    assert(order[2].position() == 2);
    assert(order[3].position() == 3);
    assert(order[4].position() == 4);
    assert(order[5].position() == 5);
    assert(order[6].position() == 6);
    assert(order[7].position() == 7);
    assert(order[8].position() == 8);
}

/// The order of a launch, whatever the stages do.
///
/// Take any sequence of outcomes and feed it to a fresh launch. Let `c` be
/// the number of completions at its head. Then the stages that were run are
/// exactly the first stages of [`startup_order`], in that order and each
/// once: all nine when `c` is nine or more, in which case the launch has
/// started; the first `c` when the outcomes end there, with the stage at
/// position `c` due; and the first `c + 1` when outcome `c` is a failure, in
/// which case the launch is aborted with the error of the stage at position
/// `c` and no later stage is ever run, whatever outcomes follow.
pub proof fn lemma_launch_follows_order(data_home: Seq<char>, outcomes: Seq<StageOutcomeView>)
    ensures
        ({
            let c = completed_prefix(outcomes) as int;
            let order = startup_order();
            let end = ProgressView::initial().run(data_home, outcomes);
            let ran = ProgressView::initial().invoked(data_home, outcomes);
            if c >= 9 {
                end == ProgressView::Started && ran == order
            } else if c == outcomes.len() {
                end == ProgressView::Pending(order[c]) && ran == order.take(c)
            } else {
                &&& outcomes[c] matches StageOutcomeView::Failed { cause }
                &&& end == ProgressView::Aborted(order[c].failure(data_home, cause))
                &&& ran == order.take(c + 1)
            }
        }),
    decreases outcomes.len(),
{
    let order = startup_order();
    let start = ProgressView::initial();
    lemma_order_positions();
    lemma_completed_prefix(outcomes);
    if outcomes.len() == 0 {
        assert(start.invoked(data_home, outcomes) =~= order.take(0));
    } else {
        let before = outcomes.drop_last();
        let cb = completed_prefix(before) as int;
        lemma_launch_follows_order(data_home, before);
        lemma_completed_prefix(before);
        assert forall|i: int| 0 <= i < before.len() implies before[i] == outcomes[i] by {}
        if cb < before.len() {
            lemma_completed_prefix_is(outcomes, cb);
        } else if outcomes.last() is Completed {
            lemma_completed_prefix_is(outcomes, cb + 1);
            if cb < 9 {
                assert(order.take(cb).push(order[cb]) =~= order.take(cb + 1));
                if cb == 8 {
                    assert(order.take(9) =~= order);
                }
            }
        } else {
            lemma_completed_prefix_is(outcomes, cb);
            if cb < 9 {
                assert(order.take(cb).push(order[cb]) =~= order.take(cb + 1));
            }
        }
    }
}

/// No stage runs before the stages it depends on.
///
/// In any launch, whatever the stages do, the stage that runs in place `k`
/// is the one at position `k` of [`startup_order`], and by then every
/// earlier stage has run and has completed. So the catalog is never set up
/// before the storage tier is built, the frontend is never built before the
/// catalog is there, and the frontend never starts to accept connections
/// before the storage tier and the procedure manager have started.
pub proof fn lemma_stage_waits_for_earlier_stages(
    data_home: Seq<char>,
    outcomes: Seq<StageOutcomeView>,
    k: int,
)
    requires
        0 <= k < ProgressView::initial().invoked(data_home, outcomes).len(),
    ensures
        k < startup_order().len(),
        k < outcomes.len(),
        ProgressView::initial().invoked(data_home, outcomes)[k] == startup_order()[k],
        forall|j: int| 0 <= j < k ==> outcomes[j] is Completed,
{
    lemma_launch_follows_order(data_home, outcomes);
    lemma_completed_prefix(outcomes);
}

} // verus!
