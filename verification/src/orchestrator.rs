//! The course of one load, step by step.
//!
//! A load is a short conversation. The run names the next thing to do (an
//! [`Action`]); the caller does it and reports how it went (an [`Outcome`]);
//! the run then names the next thing, until it names the result. The run
//! itself touches neither files nor the store.

use crate::error::{LoadError, StagingPhase};
use crate::request::{
    valid_partition, validate_partition, LoadRequest, LoadSummary, Partition, ScaleFactor,
};
use crate::table::Table;
use vstd::prelude::*;

verus! {

/// How the caller fared with the action it was given.
#[derive(Clone, Copy, Debug, PartialEq, Eq, Structural)]
pub enum Outcome {
    Done,
    Failed,
}

/// What the caller has to do next.
#[derive(Clone, Copy, Debug, PartialEq, Eq, Structural)]
pub enum Action {
    /// Empty all eight tables and restart their counters, in one statement.
    Reset,
    /// Generate the rows of `table` that `partition` owns at `scale` and
    /// write them, after the header line, to the table's transfer file.
    /// Where the rows cannot be generated or written, the action has
    /// failed.
    Stage { table: Table, scale: ScaleFactor, partition: Partition },
    /// Have the store ingest the transfer file of `table`.
    Ingest { table: Table },
    /// Remove the transfer file of `table`.
    Discard { table: Table },
    /// Nothing is left to do: the load went through.
    Finish(LoadSummary),
    /// Nothing is left to do: the load was given up.
    Fail(LoadError),
}

/// Where a run stands.
#[derive(Clone, Copy, Debug, PartialEq, Eq, Structural)]
pub enum Phase {
    /// The tables are being emptied.
    Resetting,
    /// The transfer file of the table is being written.
    Staging(Table),
    /// The store is ingesting the transfer file of the table.
    Ingesting(Table),
    /// The transfer file of the table is being removed after its ingest.
    Discarding(Table),
    /// The transfer file of the table is being removed after the failure
    /// that the phase carries.
    Abandoning(Table, LoadError),
    /// The load went through.
    Finished(LoadSummary),
    /// The load was given up.
    Failed(LoadError),
}

/// One load in progress: the request and how far it has come.
#[derive(Clone, Copy, Debug, PartialEq, Eq, Structural)]
pub struct LoadRun {
    pub request: LoadRequest,
    pub phase: Phase,
}

impl LoadRequest {
    /// Whether the request asks for a reset without a load.
    pub open spec fn reset_only(self) -> bool {
        self.scale.spec_is_zero()
    }

    /// Whether the request asks for the load of a partition that exists.
    pub open spec fn loads(self) -> bool {
        !self.scale.spec_is_zero() && valid_partition(self.children as int, self.step as int)
    }

    /// Whether the request is turned down before anything is touched.
    pub open spec fn rejected(self) -> bool {
        !self.scale.spec_is_zero() && !valid_partition(self.children as int, self.step as int)
    }

    /// Whether the load starts by emptying the tables: a reset was asked
    /// for, or the first partition of a data set is loaded.
    pub open spec fn resets(self) -> bool {
        self.reset_only() || (self.loads() && self.step == 0)
    }

    /// The partition that the request names.
    pub open spec fn partition(self) -> Partition {
        Partition::of(self.children as int, self.step as int)
    }

    /// What staging `table` for this request asks of the caller.
    pub open spec fn stage(self, table: Table) -> Action {
        Action::Stage { table, scale: self.scale, partition: self.partition() }
    }
}

impl LoadRun {
    /// The phases that a run of its request can be in.
    pub open spec fn wf(self) -> bool {
        match self.phase {
            Phase::Resetting => self.request.resets(),
            Phase::Staging(_) => self.request.loads(),
            Phase::Ingesting(_) => self.request.loads(),
            Phase::Discarding(_) => self.request.loads(),
            Phase::Abandoning(table, error) => self.request.loads() && (error == (
                LoadError::StagingIOError { table, phase: StagingPhase::Write }
            ) || error == (LoadError::IngestError { table })),
            Phase::Finished(summary) => if self.request.reset_only() {
                summary == LoadSummary::Truncated
            } else {
                self.request.loads() && summary == (LoadSummary::Loaded {
                    partition: self.request.partition(),
                })
            },
            Phase::Failed(error) => match error {
                LoadError::InvalidPartitionSpec { children, step } => self.request.rejected()
                    && children == self.request.children && step == self.request.step,
                LoadError::ResetFailed => self.request.resets(),
                LoadError::StagingIOError { .. } => self.request.loads(),
                LoadError::IngestError { .. } => self.request.loads(),
            },
        }
    }

    /// The run of `request` before anything has been done.
    pub open spec fn spec_begin(request: LoadRequest) -> LoadRun {
        let phase = if request.reset_only() {
            Phase::Resetting
        } else if request.rejected() {
            Phase::Failed(
                LoadError::InvalidPartitionSpec { children: request.children, step: request.step },
            )
        } else if request.step == 0 {
            Phase::Resetting
        } else {
            Phase::Staging(Table::spec_load_order()[0])
        };
        LoadRun { request, phase }
    }

    /// The run after the caller has reported `outcome` for the action of
    /// the current phase.
    pub open spec fn spec_advance(self, outcome: Outcome) -> LoadRun {
        let phase = match self.phase {
            Phase::Resetting => match outcome {
                Outcome::Done => if self.request.reset_only() {
                    Phase::Finished(LoadSummary::Truncated)
                } else {
                    Phase::Staging(Table::spec_load_order()[0])
                },
                Outcome::Failed => Phase::Failed(LoadError::ResetFailed),
            },
            Phase::Staging(table) => match outcome {
                Outcome::Done => Phase::Ingesting(table),
                Outcome::Failed => Phase::Abandoning(
                    table,
                    LoadError::StagingIOError { table, phase: StagingPhase::Write },
                ),
            },
            Phase::Ingesting(table) => match outcome {
                Outcome::Done => Phase::Discarding(table),
                Outcome::Failed => Phase::Abandoning(table, LoadError::IngestError { table }),
            },
            Phase::Discarding(table) => match outcome {
                Outcome::Done => match table.spec_next() {
                    Some(following) => Phase::Staging(following),
                    None => Phase::Finished(
                        LoadSummary::Loaded { partition: self.request.partition() },
                    ),
                },
                Outcome::Failed => Phase::Failed(
                    LoadError::StagingIOError { table, phase: StagingPhase::Remove },
                ),
            },
            Phase::Abandoning(_, error) => Phase::Failed(error),
            Phase::Finished(summary) => Phase::Finished(summary),
            Phase::Failed(error) => Phase::Failed(error),
        };
        LoadRun { request: self.request, phase }
    }

    /// What the caller has to do in the current phase.
    pub open spec fn spec_action(self) -> Action {
        match self.phase {
            Phase::Resetting => Action::Reset,
            Phase::Staging(table) => self.request.stage(table),
            Phase::Ingesting(table) => Action::Ingest { table },
            Phase::Discarding(table) => Action::Discard { table },
            Phase::Abandoning(table, _) => Action::Discard { table },
            Phase::Finished(summary) => Action::Finish(summary),
            Phase::Failed(error) => Action::Fail(error),
        }
    }

    /// Whether the run has come to its result.
    pub open spec fn spec_is_over(self) -> bool {
        self.phase is Finished || self.phase is Failed
    }

    /// How far the run has come: every step of a run that is not over takes
    /// it to a higher rank, and no rank is above 25.
    pub open spec fn rank(self) -> int {
        match self.phase {
            Phase::Resetting => 0,
            Phase::Staging(table) => 3 * table.position() + 1,
            Phase::Ingesting(table) => 3 * table.position() + 2,
            Phase::Discarding(table) => 3 * table.position() + 3,
            Phase::Abandoning(table, _) => 3 * table.position() + 3,
            Phase::Finished(_) => 25,
            Phase::Failed(_) => 25,
        }
    }

    /// Starts the run of `request`.
    ///
    /// A request with a scale factor of zero is a reset, whatever partition
    /// it names. Any other request is turned down at once unless it names
    /// one of its partitions; it starts with a reset if it names the first,
    /// and with the first table otherwise.
    pub fn begin(request: LoadRequest) -> (run: LoadRun)
        ensures
            run == Self::spec_begin(request),
            run.wf(),
    {
        let phase = if request.scale.is_zero() {
            Phase::Resetting
        } else {
            match validate_partition(request.children, request.step) {
                Err(error) => Phase::Failed(error),
                Ok(_) => if request.step == 0 {
                    Phase::Resetting
                } else {
                    Phase::Staging(Table::first())
                },
            }
        };
        LoadRun { request, phase }
    }

    /// Takes the caller's report on the action of the current phase and
    /// moves on.
    ///
    /// A table is staged, ingested and discarded before the next one is
    /// begun. The first failure ends the load: if a transfer file may exist
    /// at that point it is discarded first, and the failure that is reported
    /// is the first one. A run that is over stays as it is.
    pub fn advance(self, outcome: Outcome) -> (next: LoadRun)
        requires
            self.wf(),
        ensures
            next == self.spec_advance(outcome),
            next.wf(),
    {
        let phase = match self.phase {
            Phase::Resetting => match outcome {
                Outcome::Done => if self.request.scale.is_zero() {
                    Phase::Finished(LoadSummary::Truncated)
                } else {
                    Phase::Staging(Table::first())
                },
                Outcome::Failed => Phase::Failed(LoadError::ResetFailed),
            },
            Phase::Staging(table) => match outcome {
                Outcome::Done => Phase::Ingesting(table),
                Outcome::Failed => Phase::Abandoning(
                    table,
                    LoadError::StagingIOError { table, phase: StagingPhase::Write },
                ),
            },
            Phase::Ingesting(table) => match outcome {
                Outcome::Done => Phase::Discarding(table),
                Outcome::Failed => Phase::Abandoning(table, LoadError::IngestError { table }),
            },
            Phase::Discarding(table) => match outcome {
                Outcome::Done => match table.next() {
                    Some(following) => Phase::Staging(following),
                    None => Phase::Finished(
                        LoadSummary::Loaded {
                            partition: Partition {
                                number: self.request.step + 1,
                                count: self.request.children,
                            },
                        },
                    ),
                },
                Outcome::Failed => Phase::Failed(
                    LoadError::StagingIOError { table, phase: StagingPhase::Remove },
                ),
            },
            Phase::Abandoning(_, error) => Phase::Failed(error),
            Phase::Finished(summary) => Phase::Finished(summary),
            Phase::Failed(error) => Phase::Failed(error),
        };
        LoadRun { request: self.request, phase }
    }

    /// What the caller has to do next.
    pub fn action(&self) -> (action: Action)
        requires
            self.wf(),
        ensures
            action == self.spec_action(),
    {
        match self.phase {
            Phase::Resetting => Action::Reset,
            Phase::Staging(table) => {
                let partition = Partition {
                    number: self.request.step + 1,
                    count: self.request.children,
                };
                Action::Stage { table, scale: self.request.scale, partition }
            },
            Phase::Ingesting(table) => Action::Ingest { table },
            Phase::Discarding(table) => Action::Discard { table },
            Phase::Abandoning(table, _) => Action::Discard { table },
            Phase::Finished(summary) => Action::Finish(summary),
            Phase::Failed(error) => Action::Fail(error),
        }
    }

    /// Whether the run is in a phase that its request allows. Every run
    /// that comes from [`LoadRun::begin`] and [`LoadRun::advance`] is.
    pub fn is_well_formed(&self) -> (ok: bool)
        ensures
            ok == self.wf(),
    {
        let request = self.request;
        let zero = request.scale.is_zero();
        let valid = request.children >= 1 && 0 <= request.step && request.step < request.children;
        let loads = !zero && valid;
        match self.phase {
            Phase::Resetting => zero || (loads && request.step == 0),
            Phase::Staging(_) => loads,
            Phase::Ingesting(_) => loads,
            Phase::Discarding(_) => loads,
            Phase::Abandoning(table, error) => loads && (error == (LoadError::StagingIOError {
                table,
                phase: StagingPhase::Write,
            }) || error == (LoadError::IngestError { table })),
            Phase::Finished(summary) => if zero {
                summary == LoadSummary::Truncated
            } else {
                loads && summary == (LoadSummary::Loaded {
                    partition: Partition { number: request.step + 1, count: request.children },
                })
            },
            Phase::Failed(error) => match error {
                LoadError::InvalidPartitionSpec { children, step } => !zero && !valid && children
                    == request.children && step == request.step,
                LoadError::ResetFailed => zero || (loads && request.step == 0),
                LoadError::StagingIOError { .. } => loads,
                LoadError::IngestError { .. } => loads,
            },
        }
    }

    /// Whether the run has come to its result.
    pub fn is_over(&self) -> (over: bool)
        ensures
            over == self.spec_is_over(),
    {
        match self.phase {
            Phase::Finished(_) => true,
            Phase::Failed(_) => true,
            _ => false,
        }
    }
}

impl LoadRun {
    /// The run after the caller has reported `outcomes`, one by one.
    pub open spec fn advance_all(self, outcomes: Seq<Outcome>) -> LoadRun
        decreases outcomes.len(),
    {
        if outcomes.len() == 0 {
            self
        } else {
            self.advance_all(outcomes.drop_last()).spec_advance(outcomes.last())
        }
    }

    /// The failure that the run reports if the action of its current phase
    /// fails.
    pub open spec fn failure(self) -> LoadError
        recommends
            !self.spec_is_over(),
    {
        match self.phase {
            Phase::Resetting => LoadError::ResetFailed,
            Phase::Staging(table) => LoadError::StagingIOError { table, phase: StagingPhase::Write },
            Phase::Ingesting(table) => LoadError::IngestError { table },
            Phase::Discarding(table) => LoadError::StagingIOError {
                table,
                phase: StagingPhase::Remove,
            },
            Phase::Abandoning(_, error) => error,
            Phase::Finished(_) => LoadError::ResetFailed,
            Phase::Failed(error) => error,
        }
    }
}

/// The run of `request` after the caller has reported `outcomes`, one by
/// one, for the actions that the run named.
pub open spec fn run_after(request: LoadRequest, outcomes: Seq<Outcome>) -> LoadRun {
    LoadRun::spec_begin(request).advance_all(outcomes)
}

/// The three actions that load one table.
pub open spec fn table_actions(request: LoadRequest, table: Table) -> Seq<Action> {
    seq![request.stage(table), Action::Ingest { table }, Action::Discard { table }]
}

/// The actions that load `tables`, one table after the other.
pub open spec fn tables_actions(request: LoadRequest, tables: Seq<Table>) -> Seq<Action>
    decreases tables.len(),
{
    if tables.len() == 0 {
        Seq::empty()
    } else {
        tables_actions(request, tables.drop_last()) + table_actions(request, tables.last())
    }
}

/// Everything that a load does when nothing fails, from the first action to
/// the result.
///
/// A reset empties the tables and reports that. A request that names no
/// partition is turned down. Any other request loads the eight tables in
/// load order, after a reset if it names the first partition, and reports
/// the partition.
pub open spec fn spec_plan(request: LoadRequest) -> Seq<Action> {
    if request.reset_only() {
        seq![Action::Reset, Action::Finish(LoadSummary::Truncated)]
    } else if request.rejected() {
        seq![
            Action::Fail(
                LoadError::InvalidPartitionSpec { children: request.children, step: request.step },
            ),
        ]
    } else {
        (if request.step == 0 {
            seq![Action::Reset]
        } else {
            Seq::empty()
        }) + tables_actions(request, Table::spec_load_order()) + seq![
            Action::Finish(LoadSummary::Loaded { partition: request.partition() }),
        ]
    }
}

/// Everything that a load of `request` does when nothing fails, from the
/// first action to the result.
pub fn plan(request: LoadRequest) -> (actions: Vec<Action>)
    ensures
        actions@ == spec_plan(request),
{
    let mut actions: Vec<Action> = Vec::new();
    if request.scale.is_zero() {
        actions.push(Action::Reset);
        actions.push(Action::Finish(LoadSummary::Truncated));
        assert(actions@ =~= spec_plan(request));
        return actions;
    }
    let partition = match validate_partition(request.children, request.step) {
        Err(error) => {
            actions.push(Action::Fail(error));
            assert(actions@ =~= spec_plan(request));
            return actions;
        },
        Ok(partition) => partition,
    };
    if request.step == 0 {
        actions.push(Action::Reset);
    }
    let ghost head = actions@;
    let order = Table::load_order();
    let mut i: usize = 0;
    while i < order.len()
        invariant
            0 <= i <= order.len(),
            order@ == Table::spec_load_order(),
            partition == request.partition(),
            actions@ == head + tables_actions(request, order@.take(i as int)),
        decreases order.len() - i,
    {
        let table = order[i];
        actions.push(Action::Stage { table, scale: request.scale, partition });
        actions.push(Action::Ingest { table });
        actions.push(Action::Discard { table });
        proof {
            let done = order@.take(i as int);
            let more = order@.take(i as int + 1);
            assert(more.drop_last() =~= done);
            assert(more.last() == table);
            assert(actions@ =~= head + tables_actions(request, more));
        }
        i += 1;
    }
    proof {
        assert(order@.take(order.len() as int) =~= order@);
    }
    actions.push(Action::Finish(LoadSummary::Loaded { partition }));
    assert(actions@ =~= spec_plan(request));
    actions
}

} // verus!
