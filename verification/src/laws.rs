//! What holds of every load, whatever the caller reports.
//!
//! The statements here speak of [`run_after`]: the run of a request after a
//! sequence of reports, one for each action that the run named.

use crate::error::LoadError;
use crate::orchestrator::{
    run_after, spec_plan, tables_actions, Action, LoadRun, Outcome, Phase,
};
use crate::request::{valid_partition, LoadRequest, LoadSummary};
use crate::table::Table;
use vstd::prelude::*;

verus! {

/// A run stays within the phases that its request allows, and keeps its
/// request.
pub proof fn runs_stay_well_formed(run: LoadRun, outcomes: Seq<Outcome>)
    requires
        run.wf(),
    ensures
        run.advance_all(outcomes).wf(),
        run.advance_all(outcomes).request == run.request,
    decreases outcomes.len(),
{
    if outcomes.len() > 0 {
        runs_stay_well_formed(run, outcomes.drop_last());
    }
}

/// A request that names one of its partitions is never turned down for its
/// partition, at whatever scale factor and whatever the caller reports.
pub proof fn valid_partition_is_admitted(request: LoadRequest, outcomes: Seq<Outcome>)
    requires
        valid_partition(request.children as int, request.step as int),
    ensures
        !(run_after(request, outcomes).spec_action() matches Action::Fail(
            LoadError::InvalidPartitionSpec { .. },
        )),
        LoadRun::spec_begin(request).spec_action() == if request.resets() {
            Action::Reset
        } else {
            request.stage(Table::Region)
        },
{
    runs_stay_well_formed(LoadRun::spec_begin(request), outcomes);
}

/// A request at a scale factor other than zero that does not name one of
/// its partitions is turned down with both numbers, and no run of it ever
/// names another action: the tables and the staging area are not touched.
pub proof fn invalid_partition_is_rejected(request: LoadRequest, outcomes: Seq<Outcome>)
    requires
        !request.scale.spec_is_zero(),
        !valid_partition(request.children as int, request.step as int),
    ensures
        run_after(request, outcomes).spec_action() == Action::Fail(
            LoadError::InvalidPartitionSpec { children: request.children, step: request.step },
        ),
    decreases outcomes.len(),
{
    if outcomes.len() > 0 {
        invalid_partition_is_rejected(request, outcomes.drop_last());
    }
}

/// At a scale factor of zero a load is a reset and nothing else, whatever
/// partition the request names: the first action is the reset, and the
/// next is the result, which depends on the reset alone. No table is ever
/// staged or ingested.
pub proof fn zero_scale_only_resets(request: LoadRequest, outcomes: Seq<Outcome>)
    requires
        request.scale.spec_is_zero(),
    ensures
        run_after(request, outcomes).spec_action() == if outcomes.len() == 0 {
            Action::Reset
        } else if outcomes[0] == Outcome::Done {
            Action::Finish(LoadSummary::Truncated)
        } else {
            Action::Fail(LoadError::ResetFailed)
        },
    decreases outcomes.len(),
{
    if outcomes.len() > 0 {
        zero_scale_only_resets(request, outcomes.drop_last());
        if outcomes.len() > 1 {
            assert(outcomes.drop_last()[0] == outcomes[0]);
        }
    }
}

/// A reset goes the same way each time it is asked for: a run keeps
/// nothing from the runs before it, so two requests at a scale factor of
/// zero name the same actions on the same reports, whatever partitions
/// they name.
pub proof fn resets_are_alike(first: LoadRequest, second: LoadRequest, outcomes: Seq<Outcome>)
    requires
        first.scale.spec_is_zero(),
        second.scale.spec_is_zero(),
    ensures
        run_after(first, outcomes).spec_action() == run_after(second, outcomes).spec_action(),
{
    zero_scale_only_resets(first, outcomes);
    zero_scale_only_resets(second, outcomes);
}

/// The load of a first partition begins with the reset and names it once.
/// Unless the reset was reported done, the load ends there: a table is
/// staged or ingested only after the tables were emptied.
pub proof fn first_partition_resets_before_loading(request: LoadRequest, outcomes: Seq<Outcome>)
    requires
        request.loads(),
        request.step == 0,
    ensures
        outcomes.len() == 0 <==> run_after(request, outcomes).spec_action() == Action::Reset,
        outcomes.len() > 0 && outcomes[0] == Outcome::Failed ==> run_after(
            request,
            outcomes,
        ).spec_action() == Action::Fail(LoadError::ResetFailed),
        run_after(request, outcomes).spec_action() is Stage || run_after(
            request,
            outcomes,
        ).spec_action() is Ingest ==> outcomes.len() > 0 && outcomes[0] == Outcome::Done,
    decreases outcomes.len(),
{
    if outcomes.len() > 0 {
        first_partition_resets_before_loading(request, outcomes.drop_last());
        if outcomes.len() > 1 {
            assert(outcomes.drop_last()[0] == outcomes[0]);
        }
    }
}

/// The load of any partition but the first never resets the tables: what
/// earlier partitions have loaded stays.
pub proof fn later_partitions_never_reset(request: LoadRequest, outcomes: Seq<Outcome>)
    requires
        !request.scale.spec_is_zero(),
        request.step != 0,
    ensures
        run_after(request, outcomes).spec_action() != Action::Reset,
    decreases outcomes.len(),
{
    if outcomes.len() > 0 {
        later_partitions_never_reset(request, outcomes.drop_last());
    }
}

/// Whenever a run asks for a table to be staged, it names the partition
/// of the request as it is: number `step + 1` out of `children`, at the
/// scale factor of the request. This holds for every partition that the
/// request can name, however large its count.
pub proof fn staged_partition_is_the_requested(request: LoadRequest, outcomes: Seq<Outcome>)
    ensures
        run_after(request, outcomes).spec_action() matches Action::Stage {
            scale,
            partition,
            ..
        } ==> scale == request.scale && partition.number == request.step + 1 && partition.count
            == request.children && valid_partition(request.children as int, request.step as int),
{
    runs_stay_well_formed(LoadRun::spec_begin(request), outcomes);
}

/// Every report on a run that is not over takes the run further.
pub proof fn each_step_makes_progress(run: LoadRun, outcome: Outcome)
    requires
        run.wf(),
        !run.spec_is_over(),
    ensures
        run.rank() < run.spec_advance(outcome).rank() <= 25,
{
}

/// A run is over exactly when it has reached the highest rank.
pub proof fn highest_rank_is_the_end(run: LoadRun)
    ensures
        0 <= run.rank() <= 25,
        run.spec_is_over() <==> run.rank() == 25,
{
}

/// With each report a run gains at least one rank until it is over.
pub proof fn reports_add_rank(run: LoadRun, outcomes: Seq<Outcome>)
    requires
        run.wf(),
    ensures
        run.advance_all(outcomes).rank() == 25 || run.advance_all(outcomes).rank() >= run.rank()
            + outcomes.len(),
    decreases outcomes.len(),
{
    if outcomes.len() > 0 {
        reports_add_rank(run, outcomes.drop_last());
        runs_stay_well_formed(run, outcomes.drop_last());
    }
}

/// No load takes more than twenty-five reports: one for the reset and
/// three for each table.
pub proof fn every_load_ends(request: LoadRequest, outcomes: Seq<Outcome>)
    requires
        outcomes.len() >= 25,
    ensures
        run_after(request, outcomes).spec_is_over(),
{
    reports_add_rank(LoadRun::spec_begin(request), outcomes);
}

/// Tables are staged in load order, each at most once: a table that is
/// staged later in a run stands later in the order.
pub proof fn tables_are_staged_in_load_order(
    run: LoadRun,
    later: Seq<Outcome>,
    first: Table,
    second: Table,
)
    requires
        run.wf(),
        run.phase == Phase::Staging(first),
        later.len() > 0,
        run.advance_all(later).phase == Phase::Staging(second),
    ensures
        first.position() < second.position(),
{
    reports_add_rank(run, later);
}

/// No transfer file outlives the load of its table: once a table is being
/// staged, the run names the removal of its file before it names anything
/// for another table or the result, whether staging and ingest succeed or
/// fail.
pub proof fn transfer_files_are_discarded(
    run: LoadRun,
    table: Table,
    staged: Outcome,
    ingested: Outcome,
)
    requires
        run.wf(),
        run.phase == Phase::Staging(table),
    ensures
        staged == Outcome::Failed ==> run.spec_advance(staged).spec_action() == (Action::Discard {
            table,
        }),
        staged == Outcome::Done ==> run.spec_advance(staged).spec_action() == (Action::Ingest {
            table,
        }) && run.spec_advance(staged).spec_advance(ingested).spec_action() == (Action::Discard {
            table,
        }),
{
}

/// The first failure ends the load. After it the run names at most the
/// removal of the transfer file that may exist, and then the failure:
/// the error says which table and which step failed, and what the caller
/// reports about the removal does not change it. No table is reset,
/// staged or ingested after a failure.
pub proof fn first_failure_ends_the_load(run: LoadRun, later: Seq<Outcome>)
    requires
        run.wf(),
        !run.spec_is_over(),
    ensures
        later.len() == 0 ==> run.spec_advance(Outcome::Failed).spec_action() is Discard
            || run.spec_advance(Outcome::Failed).spec_action() == Action::Fail(run.failure()),
        later.len() > 0 ==> run.spec_advance(Outcome::Failed).advance_all(later).spec_action()
            == Action::Fail(run.failure()),
    decreases later.len(),
{
    if later.len() > 0 {
        first_failure_ends_the_load(run, later.drop_last());
    }
}

/// The actions that load a list of tables are three for each table, in the
/// order of the list: stage, ingest, discard.
pub proof fn tables_actions_by_index(request: LoadRequest, tables: Seq<Table>, i: int)
    requires
        0 <= i < tables.len(),
    ensures
        tables_actions(request, tables).len() == 3 * tables.len(),
        tables_actions(request, tables)[3 * i] == request.stage(tables[i]),
        tables_actions(request, tables)[3 * i + 1] == (Action::Ingest { table: tables[i] }),
        tables_actions(request, tables)[3 * i + 2] == (Action::Discard { table: tables[i] }),
    decreases tables.len(),
{
    tables_actions_len(request, tables);
    tables_actions_len(request, tables.drop_last());
    if i < tables.len() - 1 {
        tables_actions_by_index(request, tables.drop_last(), i);
    }
}

proof fn tables_actions_len(request: LoadRequest, tables: Seq<Table>)
    ensures
        tables_actions(request, tables).len() == 3 * tables.len(),
    decreases tables.len(),
{
    if tables.len() > 0 {
        tables_actions_len(request, tables.drop_last());
    }
}

/// The phase of an undisturbed load at a rank.
spec fn phase_at(request: LoadRequest, rank: int) -> Phase {
    if request.reset_only() {
        if rank <= 0 {
            Phase::Resetting
        } else {
            Phase::Finished(LoadSummary::Truncated)
        }
    } else if rank <= 0 {
        Phase::Resetting
    } else if rank >= 25 {
        Phase::Finished(LoadSummary::Loaded { partition: request.partition() })
    } else {
        let table = Table::spec_load_order()[(rank - 1) / 3];
        if (rank - 1) % 3 == 0 {
            Phase::Staging(table)
        } else if (rank - 1) % 3 == 1 {
            Phase::Ingesting(table)
        } else {
            Phase::Discarding(table)
        }
    }
}

proof fn undisturbed_phase(request: LoadRequest, n: nat)
    requires
        !request.rejected(),
    ensures
        run_after(request, Seq::new(n, |i: int| Outcome::Done)).phase == phase_at(
            request,
            if request.resets() {
                n as int
            } else {
                n as int + 1
            },
        ),
    decreases n,
{
    let reports = Seq::new(n, |i: int| Outcome::Done);
    let start = LoadRun::spec_begin(request);
    if n == 0 {
        assert(start.advance_all(reports) == start);
    } else {
        let before = Seq::new((n - 1) as nat, |i: int| Outcome::Done);
        assert(reports.drop_last() =~= before);
        assert(reports.last() == Outcome::Done);
        undisturbed_phase(request, (n - 1) as nat);
        runs_stay_well_formed(start, before);
        let earlier = start.advance_all(before);
        assert(start.advance_all(reports) == earlier.spec_advance(Outcome::Done));
        let rank: int = if request.resets() {
            n - 1
        } else {
            n as int
        };
        assert(earlier.phase == phase_at(request, rank));
        if !request.reset_only() && 1 <= rank < 25 {
            let j = (rank - 1) / 3;
            let m = (rank - 1) % 3;
            assert(0 <= j < 8);
            assert(rank == 3 * j + m + 1);
            let table = Table::spec_load_order()[j];
            assert(table.position() == j);
            if m == 0 {
                assert(rank / 3 == j && rank % 3 == 1);
            } else if m == 1 {
                assert(rank / 3 == j && rank % 3 == 2);
            } else if j < 7 {
                assert(rank / 3 == j + 1 && rank % 3 == 0);
                assert(table.spec_next() == Some(Table::spec_load_order()[j + 1]));
            } else {
                assert(rank == 24);
                assert(table.spec_next() is None);
            }
        }
    }
}

/// A load in which every action is reported done names the actions of its
/// plan, one after the other, and stays at the last of them, the result.
pub proof fn undisturbed_load_follows_plan(request: LoadRequest, n: nat)
    ensures
        spec_plan(request).len() > 0,
        run_after(request, Seq::new(n, |i: int| Outcome::Done)).spec_action() == spec_plan(
            request,
        )[if n < spec_plan(request).len() {
            n as int
        } else {
            spec_plan(request).len() - 1
        }],
{
    let reports = Seq::new(n, |i: int| Outcome::Done);
    let plan = spec_plan(request);
    let k: int = if n < plan.len() {
        n as int
    } else {
        plan.len() - 1
    };
    let action = run_after(request, reports).spec_action();
    if request.rejected() {
        invalid_partition_is_rejected(request, reports);
        assert(plan.len() == 1);
        assert(action == plan[k]);
    } else if request.reset_only() {
        zero_scale_only_resets(request, reports);
        assert(plan.len() == 2);
        assert(action == plan[k]);
    } else {
        undisturbed_phase(request, n);
        let order = Table::spec_load_order();
        let head = if request.step == 0 {
            seq![Action::Reset]
        } else {
            Seq::empty()
        };
        let middle = tables_actions(request, order);
        let result = Action::Finish(LoadSummary::Loaded { partition: request.partition() });
        tables_actions_len(request, order);
        assert(plan == head + middle + seq![result]);
        assert(plan.len() == head.len() + 25);
        assert(plan[plan.len() - 1] == result);
        let rank = n + 1 - head.len();
        if rank <= 0 {
            assert(action == plan[k]);
        } else if rank < 25 {
            let j = (rank - 1) / 3;
            let m = (rank - 1) % 3;
            assert(rank - 1 == 3 * j + m);
            tables_actions_by_index(request, order, j);
            assert(plan[n as int] == middle[rank - 1]);
            let run = run_after(request, reports);
            assert(run.request == request) by {
                runs_stay_well_formed(LoadRun::spec_begin(request), reports);
            }
            if m == 0 {
                assert(run.phase == Phase::Staging(order[j]));
            } else if m == 1 {
                assert(run.phase == Phase::Ingesting(order[j]));
            } else {
                assert(run.phase == Phase::Discarding(order[j]));
            }
            assert(action == plan[k]);
        } else {
            assert(action == plan[k]);
        }
    }
}

} // verus!
