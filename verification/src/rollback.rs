//! The change journal: a bounded history of change records, newest first,
//! each holding the snapshots taken before and after a change and the
//! commands that undo it.
//!
//! The journal runs no command itself. A rollback is a `RollbackRun`: the
//! journal says which command is to be executed next, the caller executes it
//! and reports whether it succeeded, and the journal decides how to go on.

use crate::booleans::{BooleanManager, BooleanState, BooleanStateView};
use crate::clock::{now_millis, now_rfc3339};
use crate::file_contexts::{file_context_rule, FileContextManager, FileContextView};
use crate::ports::{port_rule, PortContextView, PortManager};
use crate::selinux_mode::SELinuxModeManager;
use crate::diff::{compute_inverse, inverse_commands};
use crate::model::{first_index_of, lemma_first_index_of, lemma_views_push, lemma_views_take, views};
use crate::modules::{ModuleManager, SELinuxModule, SELinuxModuleView};
use crate::text::{decimal, decimal_text, join, joined};
use std::collections::VecDeque;
use vstd::prelude::*;
use vstd::string::*;

verus! {

/// A point-in-time copy of the whole policy surface.
#[derive(Debug, Clone)]
pub struct SystemState {
    pub timestamp: String,
    pub selinux_mode: String,
    pub booleans: Vec<BooleanState>,
    pub modules: Vec<SELinuxModule>,
    /// Rules in the canonical form `path:label`.
    pub file_contexts: Vec<String>,
    /// Rules in the canonical form `port/protocol:label`.
    pub ports: Vec<String>,
}

/// The mathematical value of a `SystemState`.
pub struct SystemStateView {
    pub timestamp: Seq<char>,
    pub selinux_mode: Seq<char>,
    pub booleans: Seq<BooleanStateView>,
    pub modules: Seq<SELinuxModuleView>,
    pub file_contexts: Seq<Seq<char>>,
    pub ports: Seq<Seq<char>>,
}

impl View for SystemState {
    type V = SystemStateView;

    open spec fn view(&self) -> SystemStateView {
        SystemStateView {
            timestamp: self.timestamp@,
            selinux_mode: self.selinux_mode@,
            booleans: views(self.booleans@),
            modules: views(self.modules@),
            file_contexts: views(self.file_contexts@),
            ports: views(self.ports@),
        }
    }
}

/// The snapshot of what the managers hold, taken at the time that
/// `timestamp` writes.
pub open spec fn captured(
    timestamp: Seq<char>,
    mode: Seq<char>,
    booleans: Seq<BooleanStateView>,
    modules: Seq<SELinuxModuleView>,
    file_contexts: Seq<FileContextView>,
    ports: Seq<PortContextView>,
) -> SystemStateView {
    SystemStateView {
        timestamp,
        selinux_mode: mode,
        booleans,
        modules,
        file_contexts: file_contexts.map_values(
            |c: FileContextView| file_context_rule(c.path, c.context),
        ),
        ports: ports.map_values(|p: PortContextView| port_rule(p.port, p.protocol, p.context)),
    }
}

impl SystemState {
    /// Copies what the managers hold into a snapshot with the timestamp
    /// `timestamp`. The snapshot shares nothing with the managers: what
    /// they do later does not reach it.
    pub fn capture_at(
        timestamp: String,
        mode: &SELinuxModeManager,
        booleans: &BooleanManager,
        modules: &ModuleManager,
        file_contexts: &FileContextManager,
        ports: &PortManager,
    ) -> (r: Self)
        ensures
            r@ == captured(
                timestamp@,
                mode.current_mode.name(),
                views(booleans.booleans@),
                views(modules.modules@),
                views(file_contexts.contexts@),
                views(ports.ports@),
            ),
    {
        let r = SystemState {
            timestamp,
            selinux_mode: String::from_str(mode.get_current().to_string()),
            booleans: booleans.booleans.clone(),
            modules: modules.modules.clone(),
            file_contexts: file_contexts.canonical_rules(),
            ports: ports.canonical_rules(),
        };
        assert(views(r.booleans@) =~= views(booleans.booleans@));
        assert(views(r.modules@) =~= views(modules.modules@));
        r
    }

    /// Copies what the managers hold into a snapshot, with the present time
    /// as its timestamp. Nothing but the timestamp depends on the clock.
    pub fn capture(
        mode: &SELinuxModeManager,
        booleans: &BooleanManager,
        modules: &ModuleManager,
        file_contexts: &FileContextManager,
        ports: &PortManager,
    ) -> (r: Self)
        ensures
            r@ == captured(
                r@.timestamp,
                mode.current_mode.name(),
                views(booleans.booleans@),
                views(modules.modules@),
                views(file_contexts.contexts@),
                views(ports.ports@),
            ),
    {
        Self::capture_at(now_rfc3339(), mode, booleans, modules, file_contexts, ports)
    }
}

/// One entry of the journal: a change, the snapshots around it, and the
/// commands that undo it.
#[derive(Debug, Clone)]
pub struct ChangeRecord {
    pub id: String,
    pub timestamp: String,
    pub action: String,
    pub description: String,
    pub previous_state: SystemState,
    pub new_state: SystemState,
    pub rollback_commands: Vec<String>,
    /// The commands that a rollback has executed; empty until one runs.
    pub applied_commands: Vec<String>,
}

/// The mathematical value of a `ChangeRecord`.
pub struct ChangeRecordView {
    pub id: Seq<char>,
    pub timestamp: Seq<char>,
    pub action: Seq<char>,
    pub description: Seq<char>,
    pub previous_state: SystemStateView,
    pub new_state: SystemStateView,
    pub rollback_commands: Seq<Seq<char>>,
    pub applied_commands: Seq<Seq<char>>,
}

impl View for ChangeRecord {
    type V = ChangeRecordView;

    open spec fn view(&self) -> ChangeRecordView {
        ChangeRecordView {
            id: self.id@,
            timestamp: self.timestamp@,
            action: self.action@,
            description: self.description@,
            previous_state: self.previous_state@,
            new_state: self.new_state@,
            rollback_commands: views(self.rollback_commands@),
            applied_commands: views(self.applied_commands@),
        }
    }
}

/// The explicit commands, in order, followed by each generated command that
/// is not yet in the list when its turn comes.
pub open spec fn merged(explicit: Seq<Seq<char>>, generated: Seq<Seq<char>>) -> Seq<Seq<char>>
    decreases generated.len(),
{
    if generated.len() == 0 {
        explicit
    } else {
        let base = merged(explicit, generated.drop_last());
        if base.contains(generated.last()) {
            base
        } else {
            base.push(generated.last())
        }
    }
}

/// The id of a change recorded at clock reading `millis`.
pub open spec fn change_id(millis: int) -> Seq<char> {
    "chg_"@ + decimal_text(millis)
}

/// The id of the marker of a rollback finished at clock reading `millis`.
pub open spec fn marker_id(millis: int) -> Seq<char> {
    "rollback_"@ + decimal_text(millis)
}

/// The record of a change made at clock reading `millis`.
pub open spec fn new_record(
    millis: int,
    timestamp: Seq<char>,
    action: Seq<char>,
    description: Seq<char>,
    previous: SystemStateView,
    new: SystemStateView,
    explicit: Seq<Seq<char>>,
) -> ChangeRecordView {
    ChangeRecordView {
        id: change_id(millis),
        timestamp,
        action,
        description,
        previous_state: previous,
        new_state: new,
        rollback_commands: merged(explicit, inverse_commands(previous, new)),
        applied_commands: Seq::empty(),
    }
}

/// The marker that stands for the rollback of `change`, ended at clock
/// reading `millis` after `executed` had been run, whether all of its
/// commands or those before a failure: the snapshots of `change` swapped,
/// the executed commands for audit, and no undo commands of its own.
pub open spec fn marker_of(
    change: ChangeRecordView,
    executed: Seq<Seq<char>>,
    millis: int,
    timestamp: Seq<char>,
) -> ChangeRecordView {
    ChangeRecordView {
        id: marker_id(millis),
        timestamp,
        action: "Rollback"@,
        description: "Rolled back: "@ + change.id,
        previous_state: change.new_state,
        new_state: change.previous_state,
        rollback_commands: Seq::empty(),
        applied_commands: change.applied_commands + executed,
    }
}

/// The first `max` records of `history`, or all of them where there are fewer.
pub open spec fn trimmed(history: Seq<ChangeRecordView>, max: int) -> Seq<ChangeRecordView> {
    if history.len() > max {
        history.take(max)
    } else {
        history
    }
}

/// `history` with `record` put in front, cut at the back to `max` records.
pub open spec fn pushed(history: Seq<ChangeRecordView>, record: ChangeRecordView, max: int) -> Seq<
    ChangeRecordView,
> {
    trimmed(seq![record] + history, max)
}

/// Why a rollback did not take place or did not finish.
#[derive(Debug, Clone)]
pub enum RollbackError {
    /// The history holds nothing to roll back.
    NoChanges,
    /// No record of the history has the id asked for.
    IdNotFound,
    /// An undo command failed. `applied` holds the commands of the record
    /// that had been executed before it; the marker of the record in the
    /// history holds them too.
    ExternalCommand { command: String, applied: Vec<String> },
}

impl RollbackError {
    /// The text that `message` gives for this error.
    pub open spec fn message_text(self) -> Seq<char> {
        match self {
            RollbackError::NoChanges => "No changes to rollback"@,
            RollbackError::IdNotFound => "Change ID not found"@,
            RollbackError::ExternalCommand { command, applied } => "Rollback command failed: "@
                + command@ + (if applied@.len() == 0 {
                "; nothing was executed before it"@
            } else {
                "; executed before it: "@ + joined(views(applied@), "; "@)
            }),
        }
    }

    /// A description of the error for the operator.
    pub fn message(&self) -> (r: String)
        ensures
            r@ == self.message_text(),
    {
        match self {
            RollbackError::NoChanges => String::from_str("No changes to rollback"),
            RollbackError::IdNotFound => String::from_str("Change ID not found"),
            RollbackError::ExternalCommand { command, applied } => {
                let mut r = String::from_str("Rollback command failed: ");
                r.append(command.as_str());
                if applied.len() == 0 {
                    r.append("; nothing was executed before it");
                } else {
                    r.append("; executed before it: ");
                    assert(views(applied@).take(applied.len() as int) =~= views(applied@));
                    r.append(join(applied, applied.len(), "; ").as_str());
                }
                r
            },
        }
    }
}

/// The journal: the change records, newest first, and the most that it keeps.
pub struct RollbackManager {
    pub change_history: VecDeque<ChangeRecord>,
    pub max_history: usize,
}

/// The mathematical value of a `RollbackManager`.
pub struct RollbackManagerView {
    pub history: Seq<ChangeRecordView>,
    pub max_history: nat,
}

impl View for RollbackManager {
    type V = RollbackManagerView;

    open spec fn view(&self) -> RollbackManagerView {
        RollbackManagerView {
            history: views(self.change_history@),
            max_history: self.max_history as nat,
        }
    }
}

/// A rollback in progress: one record, or a cascade of records from the
/// front of the history down to a chosen one.
///
/// While the commands of a record are executed the record stays where it is,
/// below the markers of the records that this run has rolled back before it.
#[derive(Debug, Clone)]
pub struct RollbackRun {
    /// In a simulated run no command is executed.
    pub simulation: bool,
    /// How many records this run has rolled back. The record in hand stands
    /// at this position of the history.
    pub depth: usize,
    /// How many records are still to be rolled back, the one in hand included.
    pub remaining: usize,
    /// The commands of the record in hand that have been executed.
    pub applied: Vec<String>,
}

/// The mathematical value of a `RollbackRun`.
pub struct RollbackRunView {
    pub simulation: bool,
    pub depth: nat,
    pub remaining: nat,
    pub applied: Seq<Seq<char>>,
}

impl View for RollbackRun {
    type V = RollbackRunView;

    open spec fn view(&self) -> RollbackRunView {
        RollbackRunView {
            simulation: self.simulation,
            depth: self.depth as nat,
            remaining: self.remaining as nat,
            applied: views(self.applied@),
        }
    }
}

impl RollbackRun {
    /// Whether every record of the run has been rolled back.
    pub fn is_finished(&self) -> (r: bool)
        ensures
            r == (self@.remaining == 0),
    {
        self.remaining == 0
    }
}

/// A run that is about to roll back the first `count` records.
pub open spec fn first_run(simulation: bool, count: nat) -> RollbackRunView {
    RollbackRunView { simulation, depth: 0, remaining: count, applied: Seq::empty() }
}

/// The run after its record in hand has been rolled back.
pub open spec fn next_run(run: RollbackRunView) -> RollbackRunView {
    RollbackRunView {
        simulation: run.simulation,
        depth: run.depth + 1,
        remaining: (run.remaining - 1) as nat,
        applied: Seq::empty(),
    }
}

/// The run after one more command of its record in hand has been executed.
pub open spec fn run_after(run: RollbackRunView, command: Seq<char>) -> RollbackRunView {
    RollbackRunView {
        simulation: run.simulation,
        depth: run.depth,
        remaining: run.remaining,
        applied: run.applied.push(command),
    }
}

/// The records that the run still has to roll back are in the history.
pub open spec fn fits(history: Seq<ChangeRecordView>, run: RollbackRunView) -> bool {
    run.depth + run.remaining <= history.len()
}

/// The command that has to be executed before the run can go on: the first
/// command of the record in hand that has not been executed. A simulated run
/// asks for none, and so does a run whose record in hand has none left.
pub open spec fn pending_command(history: Seq<ChangeRecordView>, run: RollbackRunView) -> Option<
    Seq<char>,
> {
    if run.remaining > 0 && run.depth < history.len() && !run.simulation && run.applied.len()
        < history[run.depth as int].rollback_commands.len() {
        Some(history[run.depth as int].rollback_commands[run.applied.len() as int])
    } else {
        None
    }
}

/// How many records, from the one in hand on, the run can roll back before
/// it has to wait for a command.
pub open spec fn ready(history: Seq<ChangeRecordView>, run: RollbackRunView) -> nat
    decreases run.remaining,
{
    if run.remaining == 0 || run.depth >= history.len() {
        0
    } else if pending_command(history, run) is Some {
        0
    } else {
        1 + ready(history, next_run(run))
    }
}

/// `marker` is the marker of a rollback of `change` in which `executed` were
/// run, ended at some reading of the clock.
pub open spec fn is_marker_of(
    marker: ChangeRecordView,
    change: ChangeRecordView,
    executed: Seq<Seq<char>>,
) -> bool {
    exists|millis: int, timestamp: Seq<char>|
        marker == #[trigger] marker_of(change, executed, millis, timestamp)
}

/// `history` after the rollback of the record at `depth` has ended at the
/// clock reading `millis`: the record is gone and its marker stands in
/// front, with `executed` added to the commands it keeps for audit.
pub open spec fn completed(
    history: Seq<ChangeRecordView>,
    depth: int,
    executed: Seq<Seq<char>>,
    millis: int,
    timestamp: Seq<char>,
) -> Seq<ChangeRecordView> {
    seq![marker_of(history[depth], executed, millis, timestamp)] + history.remove(depth)
}

/// The journal went from `before` to `after`, and the run from `run` to
/// `then`, by rolling back every record that was ready: each of them has left
/// its place, the markers stand in front, the newest first, and every other
/// record is where it was, below them.
pub open spec fn advanced(
    before: Seq<ChangeRecordView>,
    run: RollbackRunView,
    after: Seq<ChangeRecordView>,
    then: RollbackRunView,
) -> bool {
    let n = ready(before, run);
    &&& then.simulation == run.simulation
    &&& then.depth == run.depth + n
    &&& then.remaining == run.remaining - n
    &&& then.applied == if n > 0 {
        Seq::empty()
    } else {
        run.applied
    }
    &&& after.len() == before.len()
    &&& forall|j: int| run.depth + n <= j < before.len() ==> #[trigger] after[j] == before[j]
    &&& forall|j: int| 0 <= j < run.depth ==> after[n + j] == #[trigger] before[j]
    &&& forall|k: int|
        0 <= k < n ==> is_marker_of(
            #[trigger] after[k],
            before[run.depth + n - 1 - k],
            if k == n - 1 {
                run.applied
            } else {
                Seq::empty()
            },
        )
}

/// The ids of the records, in order.
pub open spec fn ids(history: Seq<ChangeRecordView>) -> Seq<Seq<char>> {
    history.map_values(|r: ChangeRecordView| r.id)
}

/// Appends to `commands` each of `generated` that it does not hold yet.
fn merge_commands(commands: &mut Vec<String>, generated: Vec<String>)
    ensures
        views(final(commands)@) == merged(views(old(commands)@), views(generated@)),
{
    let mut generated = generated;
    let ghost all = generated@;
    let mut i: usize = 0;
    let n: usize = generated.len();
    assert(views(all).take(0) =~= Seq::<Seq<char>>::empty());
    while i < n
        invariant
            i <= n,
            n == all.len(),
            generated@.len() == n,
            forall|k: int| i <= k < n ==> generated@[k] == all[k],
            views(commands@) == merged(views(old(commands)@), views(all).take(i as int)),
        decreases n - i,
    {
        let mut cmd = String::new();
        std::mem::swap(&mut cmd, &mut generated[i]);
        assert(cmd == all[i as int]);
        proof {
            assert(views(all).take(i + 1).drop_last() =~= views(all).take(i as int));
            assert(views(all).take(i + 1).last() == cmd@);
        }
        if !holds_command(commands, &cmd) {
            proof {
                lemma_views_push(commands@, cmd);
            }
            commands.push(cmd);
        }
        i += 1;
    }
    assert(views(all).take(n as int) =~= views(all));
}

fn holds_command(commands: &Vec<String>, cmd: &String) -> (r: bool)
    ensures
        r == views(commands@).contains(cmd@),
{
    let mut j: usize = 0;
    while j < commands.len()
        invariant
            j <= commands.len(),
            forall|k: int| 0 <= k < j ==> views(commands@)[k] != cmd@,
        decreases commands.len() - j,
    {
        if commands[j] == *cmd {
            assert(views(commands@)[j as int] == cmd@);
            return true;
        }
        j += 1;
    }
    false
}

impl RollbackManager {
    /// The bound on the length of the history is met.
    pub open spec fn wf(&self) -> bool {
        self.change_history@.len() <= self.max_history
    }

    /// An empty journal that keeps 200 records.
    pub fn new() -> (r: Self)
        ensures
            r@.history == Seq::<ChangeRecordView>::empty(),
            r@.max_history == 200,
            r.wf(),
    {
        let r = RollbackManager { change_history: VecDeque::new(), max_history: 200 };
        assert(r@.history =~= Seq::<ChangeRecordView>::empty());
        r
    }

    /// A journal that keeps 200 records and starts from `history`, newest
    /// first, as it was kept earlier. Records beyond the bound are dropped.
    pub fn with_history(history: Vec<ChangeRecord>) -> (r: Self)
        ensures
            r@.history == trimmed(views(history@), 200),
            r@.max_history == 200,
            r.wf(),
    {
        let mut rest = history;
        proof {
            lemma_views_take(rest@, if rest@.len() > 200 { 200 } else { rest@.len() as int });
        }
        rest.truncate(200);
        let ghost kept = rest@;
        assert(views(kept) =~= trimmed(views(history@), 200));
        let mut change_history: VecDeque<ChangeRecord> = VecDeque::new();
        while rest.len() > 0
            invariant
                rest@ + change_history@ =~= kept,
            decreases rest.len(),
        {
            match rest.pop() {
                Some(record) => {
                    change_history.push_front(record);
                },
                None => {},
            }
        }
        assert(change_history@ =~= kept);
        RollbackManager { change_history, max_history: 200 }
    }

    /// The undo commands that lead from `new` back to `previous`.
    pub fn generate_rollback_commands(previous: &SystemState, new: &SystemState) -> (r: Vec<
        String,
    >)
        ensures
            views(r@) == inverse_commands(previous@, new@),
    {
        compute_inverse(previous, new)
    }

    /// Drops records from the back until the bound is met.
    pub fn trim_history(&mut self)
        ensures
            final(self)@.history == trimmed(old(self)@.history, old(self).max_history as int),
            final(self).max_history == old(self).max_history,
            final(self).wf(),
    {
        if self.change_history.len() > self.max_history {
            proof {
                lemma_views_take(self.change_history@, self.max_history as int);
            }
            self.change_history.truncate(self.max_history);
        }
    }

    /// Empties the history.
    pub fn clear_history(&mut self)
        ensures
            final(self)@.history == Seq::<ChangeRecordView>::empty(),
            final(self).max_history == old(self).max_history,
            final(self).wf(),
    {
        self.change_history.clear();
        assert(self@.history =~= Seq::<ChangeRecordView>::empty());
    }

    /// Records a change made at the clock reading `millis`, whose text is
    /// `timestamp`: the new record goes to the front and the oldest records
    /// leave at the back where the bound is passed.
    pub fn record_change_at(
        &mut self,
        millis: i64,
        timestamp: String,
        action: String,
        description: String,
        previous_state: SystemState,
        new_state: SystemState,
        provided_rollback_commands: Vec<String>,
    )
        ensures
            final(self)@.history == pushed(
                old(self)@.history,
                new_record(
                    millis as int,
                    timestamp@,
                    action@,
                    description@,
                    previous_state@,
                    new_state@,
                    views(provided_rollback_commands@),
                ),
                old(self).max_history as int,
            ),
            final(self).max_history == old(self).max_history,
            final(self).wf(),
    {
        let mut rollback_commands = provided_rollback_commands;
        let generated = compute_inverse(&previous_state, &new_state);
        merge_commands(&mut rollback_commands, generated);
        let mut id = String::from_str("chg_");
        id.append(decimal(millis).as_str());
        let record = ChangeRecord {
            id,
            timestamp,
            action,
            description,
            previous_state,
            new_state,
            rollback_commands,
            applied_commands: Vec::new(),
        };
        proof {
            assert(record.applied_commands@ =~= Seq::<String>::empty());
            assert(views(record.applied_commands@) =~= Seq::<Seq<char>>::empty());
            assert(views(seq![record] + self.change_history@) =~= seq![record@]
                + self@.history);
        }
        self.change_history.push_front(record);
        self.trim_history();
    }

    /// Records a change at the present clock reading. Of the new record the
    /// id and the timestamp depend on the clock; everything else is fixed by
    /// the arguments.
    pub fn record_change(
        &mut self,
        action: String,
        description: String,
        previous_state: SystemState,
        new_state: SystemState,
        provided_rollback_commands: Vec<String>,
    )
        ensures
            exists|millis: int, timestamp: Seq<char>|
                final(self)@.history == pushed(
                    old(self)@.history,
                    #[trigger] new_record(
                        millis,
                        timestamp,
                        action@,
                        description@,
                        previous_state@,
                        new_state@,
                        views(provided_rollback_commands@),
                    ),
                    old(self).max_history as int,
                ),
            final(self).max_history == old(self).max_history,
            final(self).wf(),
    {
        let millis = now_millis();
        let timestamp = now_rfc3339();
        self.record_change_at(
            millis,
            timestamp,
            action,
            description,
            previous_state,
            new_state,
            provided_rollback_commands,
        );
    }

    /// The command that the caller has to execute before `run` can go on.
    pub fn next_command(&self, run: &RollbackRun) -> (r: Option<String>)
        ensures
            match r {
                Some(c) => pending_command(self@.history, run@) == Some(c@),
                None => pending_command(self@.history, run@) is None,
            },
    {
        if run.remaining > 0 && run.depth < self.change_history.len() && !run.simulation {
            let change = &self.change_history[run.depth];
            if run.applied.len() < change.rollback_commands.len() {
                return Some(change.rollback_commands[run.applied.len()].clone());
            }
        }
        None
    }

    fn has_pending(&self, run: &RollbackRun) -> (r: bool)
        ensures
            r == pending_command(self@.history, run@) is Some,
    {
        if run.remaining > 0 && run.depth < self.change_history.len() && !run.simulation {
            let change = &self.change_history[run.depth];
            run.applied.len() < change.rollback_commands.len()
        } else {
            false
        }
    }

    /// Rolls back the record that `run` has in hand, at the clock reading
    /// `millis`, whose text is `timestamp`: the record leaves the history
    /// and its marker goes to the front. As one record leaves for each that
    /// comes, the bound on the history holds without eviction.
    pub fn complete_rollback_at(&mut self, run: RollbackRun, millis: i64, timestamp: String) -> (r:
        RollbackRun)
        requires
            old(self).wf(),
            fits(old(self)@.history, run@),
            run.remaining > 0,
        ensures
            final(self)@.history == completed(
                old(self)@.history,
                run.depth as int,
                run@.applied,
                millis as int,
                timestamp@,
            ),
            r@ == next_run(run@),
            final(self).max_history == old(self).max_history,
            final(self).wf(),
            fits(final(self)@.history, r@),
    {
        let ghost before = self.change_history@;
        let RollbackRun { simulation, depth, remaining, applied } = run;
        let mut executed = applied;
        match self.change_history.remove(depth) {
            Some(change) => {
                let ChangeRecord {
                    id: change_id,
                    timestamp: _,
                    action: _,
                    description: _,
                    previous_state,
                    new_state,
                    rollback_commands: _,
                    applied_commands,
                } = change;
                let mut audit = applied_commands;
                let ghost audit_before = audit@;
                let ghost executed_before = executed@;
                audit.append(&mut executed);
                let mut id = String::from_str("rollback_");
                id.append(decimal(millis).as_str());
                let mut description = String::from_str("Rolled back: ");
                description.append(change_id.as_str());
                let marker = ChangeRecord {
                    id,
                    timestamp,
                    action: String::from_str("Rollback"),
                    description,
                    previous_state: new_state,
                    new_state: previous_state,
                    rollback_commands: Vec::new(),
                    applied_commands: audit,
                };
                proof {
                    assert(views(marker.rollback_commands@) =~= Seq::<Seq<char>>::empty());
                    assert(views(audit_before + executed_before) =~= views(audit_before) + views(
                        executed_before,
                    ));
                    assert(marker@ == marker_of(
                        before[depth as int]@,
                        run@.applied,
                        millis as int,
                        timestamp@,
                    ));
                    assert(views(seq![marker] + before.remove(depth as int)) =~= seq![marker@]
                        + views(before).remove(depth as int));
                }
                self.change_history.push_front(marker);
                let r = RollbackRun {
                    simulation,
                    depth: depth + 1,
                    remaining: remaining - 1,
                    applied: Vec::new(),
                };
                assert(r@.applied =~= Seq::<Seq<char>>::empty());
                r
            },
            None => RollbackRun { simulation, depth, remaining, applied: executed },
        }
    }

    /// Rolls back every record of `run` that is ready, reading the clock for
    /// each marker.
    fn advance(&mut self, run: RollbackRun) -> (r: RollbackRun)
        requires
            old(self).wf(),
            fits(old(self)@.history, run@),
        ensures
            advanced(old(self)@.history, run@, final(self)@.history, r@),
            final(self).max_history == old(self).max_history,
            final(self).wf(),
            fits(final(self)@.history, r@),
    {
        let ghost h0 = self@.history;
        let ghost run0 = run@;
        let ghost max0 = self.max_history;
        let ghost mut done: nat = 0;
        let mut run = run;
        let mut go = run.remaining > 0 && !self.has_pending(&run);
        while go
            invariant
                self.wf(),
                self.max_history == max0,
                fits(self@.history, run@),
                go == (run@.remaining > 0 && pending_command(self@.history, run@) is None),
                run@.simulation == run0.simulation,
                run@.depth == run0.depth + done,
                run@.remaining == run0.remaining - done,
                run@.applied == if done > 0 {
                    Seq::<Seq<char>>::empty()
                } else {
                    run0.applied
                },
                self@.history.len() == h0.len(),
                forall|j: int| run0.depth + done <= j < h0.len() ==> #[trigger] self@.history[j] == h0[j],
                forall|j: int| 0 <= j < run0.depth ==> self@.history[done + j] == #[trigger] h0[j],
                forall|k: int|
                    0 <= k < done ==> is_marker_of(
                        #[trigger] self@.history[k],
                        h0[run0.depth + done - 1 - k],
                        if k == done - 1 {
                            run0.applied
                        } else {
                            Seq::<Seq<char>>::empty()
                        },
                    ),
                ready(h0, run0) == done + ready(h0, run@),
            decreases run.remaining,
        {
            let ghost hist = self@.history;
            let ghost cur = run@;
            let millis = now_millis();
            let timestamp = now_rfc3339();
            proof {
                assert(hist[cur.depth as int] == h0[cur.depth as int]);
                assert(pending_command(h0, cur) == pending_command(hist, cur));
            }
            run = self.complete_rollback_at(run, millis, timestamp);
            proof {
                let marker = marker_of(hist[cur.depth as int], cur.applied, millis as int, timestamp@);
                let now = self@.history;
                assert(now == seq![marker] + hist.remove(cur.depth as int));
                assert(now[0] == marker);
                assert(is_marker_of(now[0], h0[cur.depth as int], cur.applied));
                assert forall|j: int| run0.depth + done + 1 <= j < h0.len() implies #[trigger] now[j]
                    == h0[j] by {
                    assert(now[j] == hist[j]);
                }
                assert forall|j: int| 0 <= j < run0.depth implies now[done + 1 + j] == #[trigger] h0[j] by {
                    assert(now[done + 1 + j] == hist[done + j]);
                }
                assert forall|k: int| 0 <= k < done + 1 implies is_marker_of(
                    #[trigger] now[k],
                    h0[run0.depth + done + 1 - 1 - k],
                    if k == done + 1 - 1 {
                        run0.applied
                    } else {
                        Seq::<Seq<char>>::empty()
                    },
                ) by {
                    if k > 0 {
                        assert(now[k] == hist[k - 1]);
                    }
                }
                done = done + 1;
            }
            go = run.remaining > 0 && !self.has_pending(&run);
            proof {
                if run@.remaining > 0 {
                    assert(self@.history[run@.depth as int] == h0[run@.depth as int]);
                    assert(pending_command(h0, run@) == pending_command(self@.history, run@));
                }
            }
        }
        proof {
            if run@.remaining > 0 {
                assert(self@.history[run@.depth as int] == h0[run@.depth as int]);
                assert(pending_command(h0, run@) == pending_command(self@.history, run@));
            }
            assert(ready(h0, run@) == 0);
        }
        run
    }

    /// Begins the rollback of the newest record and takes it as far as it
    /// goes without a command: to the end where the run is simulated or the
    /// record has no commands. Who gets a run that is not finished executes
    /// `next_command` and hands the outcome to `resume`.
    ///
    /// Fails with `NoChanges`, and changes nothing, exactly where the
    /// history is empty.
    pub fn rollback_last(&mut self, simulation: bool) -> (r: Result<RollbackRun, RollbackError>)
        requires
            old(self).wf(),
        ensures
            final(self).max_history == old(self).max_history,
            final(self).wf(),
            match r {
                Ok(run) => {
                    &&& old(self)@.history.len() > 0
                    &&& advanced(
                        old(self)@.history,
                        first_run(simulation, 1),
                        final(self)@.history,
                        run@,
                    )
                    &&& fits(final(self)@.history, run@)
                },
                Err(e) => {
                    &&& e is NoChanges
                    &&& old(self)@.history.len() == 0
                    &&& final(self)@.history == old(self)@.history
                },
            },
    {
        if self.change_history.len() == 0 {
            return Err(RollbackError::NoChanges);
        }
        let run = RollbackRun { simulation, depth: 0, remaining: 1, applied: Vec::new() };
        assert(run@.applied =~= Seq::<Seq<char>>::empty());
        Ok(self.advance(run))
    }

    /// The position of the newest record with the id `id`.
    pub fn find_id(&self, id: &str) -> (r: Option<usize>)
        ensures
            match r {
                Some(i) => i == first_index_of(ids(self@.history), id@) && i < self@.history.len(),
                None => first_index_of(ids(self@.history), id@) == self@.history.len(),
            },
    {
        let wanted = String::from_str(id);
        let mut i: usize = 0;
        proof {
            lemma_first_index_of(ids(self@.history), id@);
        }
        while i < self.change_history.len()
            invariant
                i <= self.change_history.len(),
                forall|j: int| 0 <= j < i ==> ids(self@.history)[j] != id@,
                wanted@ == id@,
                0 <= first_index_of(ids(self@.history), id@) <= self@.history.len(),
                forall|j: int|
                    0 <= j < first_index_of(ids(self@.history), id@) ==> ids(self@.history)[j]
                        != id@,
                first_index_of(ids(self@.history), id@) < self@.history.len() ==> ids(
                    self@.history,
                )[first_index_of(ids(self@.history), id@)] == id@,
            decreases self.change_history.len() - i,
        {
            if self.change_history[i].id == wanted {
                assert(ids(self@.history)[i as int] == id@);
                return Some(i);
            }
            i += 1;
        }
        None
    }

    /// Begins the cascading rollback down to the newest record with the id
    /// `id`: that record and every record in front of it are rolled back,
    /// from the front on. The run is taken as far as it goes without a
    /// command, as in `rollback_last`.
    ///
    /// Fails with `IdNotFound`, and changes nothing, exactly where no record
    /// has this id.
    pub fn rollback_to_id(&mut self, id: &str, simulation: bool) -> (r: Result<
        RollbackRun,
        RollbackError,
    >)
        requires
            old(self).wf(),
        ensures
            final(self).max_history == old(self).max_history,
            final(self).wf(),
            match r {
                Ok(run) => {
                    &&& ids(old(self)@.history).contains(id@)
                    &&& advanced(
                        old(self)@.history,
                        first_run(
                            simulation,
                            (first_index_of(ids(old(self)@.history), id@) + 1) as nat,
                        ),
                        final(self)@.history,
                        run@,
                    )
                    &&& run@.depth + run@.remaining == first_index_of(ids(old(self)@.history), id@)
                        + 1
                    &&& fits(final(self)@.history, run@)
                },
                Err(e) => {
                    &&& e is IdNotFound
                    &&& !ids(old(self)@.history).contains(id@)
                    &&& final(self)@.history == old(self)@.history
                },
            },
    {
        proof {
            lemma_first_index_of(ids(self@.history), id@);
        }
        match self.find_id(id) {
            Some(position) => {
                let run = RollbackRun {
                    simulation,
                    depth: 0,
                    remaining: position + 1,
                    applied: Vec::new(),
                };
                assert(run@.applied =~= Seq::<Seq<char>>::empty());
                Ok(self.advance(run))
            },
            None => Err(RollbackError::IdNotFound),
        }
    }

    /// Takes `run` on after the caller has executed its pending command.
    ///
    /// Where the command succeeded it joins the executed commands, and the
    /// run goes as far as it can without a further command. Where it failed
    /// the run is over: the commands behind the failed one are not executed,
    /// nothing that was executed is reversed, the record in hand gives way
    /// to its marker, which keeps the commands executed before the failure,
    /// and the records that the run had not reached stay as they are. The
    /// error names the failed command and the executed ones. Where no
    /// command was pending the outcome is ignored.
    pub fn resume(&mut self, run: RollbackRun, succeeded: bool) -> (r: Result<
        RollbackRun,
        RollbackError,
    >)
        requires
            old(self).wf(),
            fits(old(self)@.history, run@),
        ensures
            final(self).max_history == old(self).max_history,
            final(self).wf(),
            match pending_command(old(self)@.history, run@) {
                Some(cmd) => if succeeded {
                    &&& r matches Ok(then)
                    &&& advanced(
                        old(self)@.history,
                        run_after(run@, cmd),
                        final(self)@.history,
                        then@,
                    )
                    &&& fits(final(self)@.history, then@)
                } else {
                    &&& r matches Err(RollbackError::ExternalCommand { command, applied })
                    &&& command@ == cmd
                    &&& views(applied@) == old(self)@.history[run.depth as int].applied_commands
                        + run@.applied
                    &&& exists|millis: int, timestamp: Seq<char>|
                        final(self)@.history == #[trigger] completed(
                            old(self)@.history,
                            run.depth as int,
                            run@.applied,
                            millis,
                            timestamp,
                        )
                },
                None => {
                    &&& r matches Ok(then)
                    &&& advanced(old(self)@.history, run@, final(self)@.history, then@)
                    &&& fits(final(self)@.history, then@)
                },
            },
    {
        match self.next_command(&run) {
            Some(command) => {
                if succeeded {
                    let RollbackRun { simulation, depth, remaining, applied } = run;
                    let mut applied = applied;
                    proof {
                        lemma_views_push(applied@, command);
                    }
                    applied.push(command);
                    let run = RollbackRun { simulation, depth, remaining, applied };
                    Ok(self.advance(run))
                } else {
                    let millis = now_millis();
                    let timestamp = now_rfc3339();
                    Err(self.fail_rollback_at(run, millis, timestamp))
                }
            },
            None => Ok(self.advance(run)),
        }
    }

    /// Ends `run` after its pending command has failed, at the clock reading
    /// `millis`, whose text is `timestamp`: the record in hand gives way to
    /// its marker, which keeps the commands executed before the failure, and
    /// every other record stays as it is. The error that is returned names
    /// the failed command and the executed ones.
    pub fn fail_rollback_at(&mut self, run: RollbackRun, millis: i64, timestamp: String) -> (r:
        RollbackError)
        requires
            old(self).wf(),
            fits(old(self)@.history, run@),
            pending_command(old(self)@.history, run@) is Some,
        ensures
            r matches RollbackError::ExternalCommand { command, applied } && Some(command@)
                == pending_command(old(self)@.history, run@) && views(applied@) == old(
                self,
            )@.history[run.depth as int].applied_commands + run@.applied,
            final(self)@.history == completed(
                old(self)@.history,
                run.depth as int,
                run@.applied,
                millis as int,
                timestamp@,
            ),
            final(self).max_history == old(self).max_history,
            final(self).wf(),
    {
        let change = &self.change_history[run.depth];
        let command = change.rollback_commands[run.applied.len()].clone();
        let mut applied = change.applied_commands.clone();
        let mut executed = run.applied.clone();
        proof {
            assert(views(applied@) =~= views(change.applied_commands@));
            assert(views(executed@) =~= views(run.applied@));
            assert(views(applied@ + executed@) =~= views(applied@) + views(executed@));
        }
        applied.append(&mut executed);
        let _ = self.complete_rollback_at(run, millis, timestamp);
        RollbackError::ExternalCommand { command, applied }
    }
}

/// The undo commands of a record begin with the explicit commands, in
/// their order; each generated command is among them; and what follows the
/// explicit commands was generated.
pub proof fn lemma_merged_keeps_explicit_first(
    explicit: Seq<Seq<char>>,
    generated: Seq<Seq<char>>,
)
    ensures
        explicit.len() <= merged(explicit, generated).len(),
        merged(explicit, generated).take(explicit.len() as int) == explicit,
        forall|i: int|
            0 <= i < generated.len() ==> merged(explicit, generated).contains(
                #[trigger] generated[i],
            ),
        forall|i: int|
            explicit.len() <= i < merged(explicit, generated).len() ==> generated.contains(
                #[trigger] merged(explicit, generated)[i],
            ),
    decreases generated.len(),
{
    if generated.len() == 0 {
        assert(explicit.take(explicit.len() as int) =~= explicit);
    } else {
        let earlier = generated.drop_last();
        let base = merged(explicit, earlier);
        let all = merged(explicit, generated);
        lemma_merged_keeps_explicit_first(explicit, earlier);
        assert(all.take(explicit.len() as int) =~= base.take(explicit.len() as int));
        assert forall|i: int| 0 <= i < generated.len() implies all.contains(
            #[trigger] generated[i],
        ) by {
            if i < earlier.len() {
                assert(earlier[i] == generated[i]);
                let k = choose|k: int| 0 <= k < base.len() && base[k] == earlier[i];
                assert(all[k] == generated[i]);
            } else if base.contains(generated.last()) {
                let k = choose|k: int| 0 <= k < base.len() && base[k] == generated.last();
                assert(all[k] == generated[i]);
            } else {
                assert(all[base.len() as int] == generated[i]);
            }
        }
        assert forall|i: int| explicit.len() <= i < all.len() implies generated.contains(
            #[trigger] all[i],
        ) by {
            if i < base.len() {
                assert(all[i] == base[i]);
                let k = choose|k: int| 0 <= k < earlier.len() && earlier[k] == base[i];
                assert(generated[k] == all[i]);
            } else {
                assert(generated[generated.len() - 1] == all[i]);
            }
        }
    }
}

/// `history` after each of `records` has been recorded in turn.
pub open spec fn pushed_all(
    history: Seq<ChangeRecordView>,
    records: Seq<ChangeRecordView>,
    max: int,
) -> Seq<ChangeRecordView>
    decreases records.len(),
{
    if records.len() == 0 {
        history
    } else {
        pushed(pushed_all(history, records.drop_last(), max), records.last(), max)
    }
}

/// However many changes are recorded, the history never grows beyond its
/// bound, and what it holds are the newest records: those that had to leave
/// are the oldest.
pub proof fn lemma_history_keeps_the_newest(
    history: Seq<ChangeRecordView>,
    records: Seq<ChangeRecordView>,
    max: int,
)
    requires
        0 <= max,
        history.len() <= max,
    ensures
        pushed_all(history, records, max).len() <= max,
        pushed_all(history, records, max) == trimmed(records.reverse() + history, max),
    decreases records.len(),
{
    if records.len() == 0 {
        assert(records.reverse() + history =~= history);
    } else {
        let earlier = records.drop_last();
        lemma_history_keeps_the_newest(history, earlier, max);
        let all = records.reverse() + history;
        assert(all =~= seq![records.last()] + (earlier.reverse() + history));
        assert(pushed_all(history, records, max) =~= trimmed(all, max));
    }
}

/// A record that enters a full history pushes out the oldest record, and no
/// other.
pub proof fn lemma_full_history_evicts_the_oldest(
    history: Seq<ChangeRecordView>,
    record: ChangeRecordView,
    max: int,
)
    requires
        1 <= max,
        history.len() == max,
    ensures
        pushed(history, record, max) == seq![record] + history.drop_last(),
{
    assert(pushed(history, record, max) =~= seq![record] + history.drop_last());
}

/// A run never rolls back more records than it has been given, and it
/// rolls back all of them without waiting where it is simulated.
pub proof fn lemma_ready_bound(history: Seq<ChangeRecordView>, run: RollbackRunView)
    requires
        fits(history, run),
    ensures
        ready(history, run) <= run.remaining,
        run.simulation ==> ready(history, run) == run.remaining,
    decreases run.remaining,
{
    if run.remaining > 0 && pending_command(history, run) is None {
        lemma_ready_bound(history, next_run(run));
    }
}

/// Whatever a run does in one go, the records that it has rolled back and
/// those still before it stay as many as they were.
pub proof fn lemma_advance_keeps_count(
    before: Seq<ChangeRecordView>,
    run: RollbackRunView,
    after: Seq<ChangeRecordView>,
    then: RollbackRunView,
)
    requires
        fits(before, run),
        advanced(before, run, after, then),
    ensures
        then.depth + then.remaining == run.depth + run.remaining,
        fits(after, then),
{
    lemma_ready_bound(before, run);
}

/// When the rollback of a change that has just been recorded is finished,
/// the marker in front of the history says that the policy is back in the
/// state from before the change, and it holds no undo commands of its own.
pub proof fn lemma_rollback_restores_previous(
    history: Seq<ChangeRecordView>,
    max: int,
    record: ChangeRecordView,
    run: RollbackRunView,
    after: Seq<ChangeRecordView>,
    then: RollbackRunView,
)
    requires
        1 <= max,
        run.depth == 0,
        run.remaining == 1,
        advanced(pushed(history, record, max), run, after, then),
        then.remaining == 0,
    ensures
        after.len() >= 1,
        is_marker_of(after[0], record, run.applied),
        after[0].new_state == record.previous_state,
        after[0].previous_state == record.new_state,
        after[0].rollback_commands == Seq::<Seq<char>>::empty(),
        after[0].description == "Rolled back: "@ + record.id,
{
    let before = pushed(history, record, max);
    assert(before[0] == record);
    assert(ready(before, run) == 1);
    assert(is_marker_of(after[0], before[0], run.applied));
}

/// After a command has failed the journal is as long as before, and the
/// record in front of it is the marker of the record in hand: it names that
/// record, holds no undo commands, and keeps for audit the commands that
/// were executed before the failure, behind those the record held already.
pub proof fn lemma_failure_leaves_the_audit(
    before: Seq<ChangeRecordView>,
    run: RollbackRunView,
    millis: int,
    timestamp: Seq<char>,
)
    requires
        fits(before, run),
        pending_command(before, run) is Some,
    ensures
        completed(before, run.depth as int, run.applied, millis, timestamp).len() == before.len(),
        completed(before, run.depth as int, run.applied, millis, timestamp)[0].applied_commands
            == before[run.depth as int].applied_commands + run.applied,
        completed(before, run.depth as int, run.applied, millis, timestamp)[0].description
            == "Rolled back: "@ + before[run.depth as int].id,
        completed(
            before,
            run.depth as int,
            run.applied,
            millis,
            timestamp,
        )[0].rollback_commands.len() == 0,
        forall|j: int|
            0 <= j < run.depth ==> completed(
                before,
                run.depth as int,
                run.applied,
                millis,
                timestamp,
            )[j + 1] == #[trigger] before[j],
        forall|j: int|
            run.depth < j < before.len() ==> #[trigger] completed(
                before,
                run.depth as int,
                run.applied,
                millis,
                timestamp,
            )[j] == before[j],
{
}

/// A simulated rollback of the newest record is finished at once.
pub proof fn lemma_simulated_rollback_finishes(
    before: Seq<ChangeRecordView>,
    count: nat,
    after: Seq<ChangeRecordView>,
    then: RollbackRunView,
)
    requires
        count <= before.len(),
        advanced(before, first_run(true, count), after, then),
    ensures
        then.remaining == 0,
        then.depth == count,
{
    lemma_ready_bound(before, first_run(true, count));
}

/// A simulated rollback to the record that stands `k` places behind the
/// front rolls back `k + 1` records, this one and each before it: their
/// markers stand in front, the newest first, and the records behind them are
/// untouched.
pub proof fn lemma_cascade_rolls_back_each(
    before: Seq<ChangeRecordView>,
    id: Seq<char>,
    after: Seq<ChangeRecordView>,
    then: RollbackRunView,
)
    requires
        ids(before).contains(id),
        advanced(
            before,
            first_run(true, (first_index_of(ids(before), id) + 1) as nat),
            after,
            then,
        ),
    ensures
        then.depth == first_index_of(ids(before), id) + 1,
        then.remaining == 0,
        after.len() == before.len(),
        forall|k: int|
            0 <= k <= first_index_of(ids(before), id) ==> is_marker_of(
                #[trigger] after[k],
                before[first_index_of(ids(before), id) - k],
                Seq::empty(),
            ),
        forall|j: int|
            first_index_of(ids(before), id) < j < before.len() ==> #[trigger] after[j] == before[j],
{
    lemma_first_index_of(ids(before), id);
    let count = (first_index_of(ids(before), id) + 1) as nat;
    lemma_ready_bound(before, first_run(true, count));
    assert forall|k: int| 0 <= k <= first_index_of(ids(before), id) implies is_marker_of(
        #[trigger] after[k],
        before[first_index_of(ids(before), id) - k],
        Seq::empty(),
    ) by {
        assert(is_marker_of(
            after[k],
            before[0 + count - 1 - k],
            if k == count - 1 {
                first_run(true, count).applied
            } else {
                Seq::empty()
            },
        ));
    }
}

} // verus!
