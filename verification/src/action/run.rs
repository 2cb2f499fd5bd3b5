//! Running an action: the decisions between the calls that a run makes to its backend.
use vstd::prelude::*;

use super::{
    ActionError, ActionKind, ActionResult, ActionRunError, ActionRunErrorType, ActionValidationError,
    ActionView, InnerAction, TargetKind,
};
use crate::error::ErrorSource;
use crate::util::{is_metadata, metadata_key};

verus! {

/// The operations that a run carries out.
#[derive(Debug, Clone, Copy, PartialEq, Eq, Structural)]
pub enum RunOperation {
    /// Creates an entry unless it exists.
    CreateEntry,
    /// Reads one entry.
    ReadEntry,
    /// Updates an entry.
    UpdateEntry,
    /// Deletes an entry, reporting whether it existed.
    DeleteEntry,
    /// Creates a table and its metadata.
    CreateTable,
    /// Reads every entry of a table.
    ReadTable,
    /// Deletes a table, reporting whether it existed.
    DeleteTable,
}

/// The operation that an action of the given kind and target runs; there is none for updating a
/// table, which is unsupported.
pub open spec fn spec_run_operation(kind: ActionKind, target: TargetKind) -> Option<RunOperation> {
    match (kind, target) {
        (ActionKind::Create, TargetKind::Entry) => Some(RunOperation::CreateEntry),
        (ActionKind::Read, TargetKind::Entry) => Some(RunOperation::ReadEntry),
        (ActionKind::Update, TargetKind::Entry) => Some(RunOperation::UpdateEntry),
        (ActionKind::Delete, TargetKind::Entry) => Some(RunOperation::DeleteEntry),
        (ActionKind::Create, TargetKind::Table) => Some(RunOperation::CreateTable),
        (ActionKind::Read, TargetKind::Table) => Some(RunOperation::ReadTable),
        (ActionKind::Update, TargetKind::Table) => None,
        (ActionKind::Delete, TargetKind::Table) => Some(RunOperation::DeleteTable),
    }
}

/// The operation that an action of the given kind and target runs; `None` for updating a table.
pub fn run_operation(kind: ActionKind, target: TargetKind) -> (r: Option<RunOperation>)
    ensures
        r == spec_run_operation(kind, target),
{
    match (kind, target) {
        (ActionKind::Create, TargetKind::Entry) => Some(RunOperation::CreateEntry),
        (ActionKind::Read, TargetKind::Entry) => Some(RunOperation::ReadEntry),
        (ActionKind::Update, TargetKind::Entry) => Some(RunOperation::UpdateEntry),
        (ActionKind::Delete, TargetKind::Entry) => Some(RunOperation::DeleteEntry),
        (ActionKind::Create, TargetKind::Table) => Some(RunOperation::CreateTable),
        (ActionKind::Read, TargetKind::Table) => Some(RunOperation::ReadTable),
        (ActionKind::Update, TargetKind::Table) => None,
        (ActionKind::Delete, TargetKind::Table) => Some(RunOperation::DeleteTable),
    }
}

/// A call that a run asks its caller to make on the backend.
#[derive(Debug)]
pub enum BackendRequest {
    /// `get(table, key)`; with the metadata key, this checks the table's metadata.
    Get { table: String, key: String },
    /// `has(table, key)`.
    Has { table: String, key: String },
    /// `ensure(table, key, data)`, with the action's data.
    Ensure { table: String, key: String },
    /// `create(table, key, data)`, with the entry being written.
    Create { table: String, key: String },
    /// `update(table, key, data)`, with the action's data.
    Update { table: String, key: String },
    /// `delete(table, key)`.
    Delete { table: String, key: String },
    /// `has_table(table)`.
    HasTable { table: String },
    /// `ensure_table(table)`.
    EnsureTable { table: String },
    /// `create_table(table)`.
    CreateTable { table: String },
    /// `ensure(table, METADATA_KEY, default)`, with the default value of the entry type.
    EnsureMetadata { table: String },
    /// `delete_table(table)`.
    DeleteTable { table: String },
    /// `get_keys(table)`.
    GetKeys { table: String },
    /// `get_all(table, keys)`.
    GetAll { table: String, keys: Vec<String> },
}

/// What the backend answered to a [`BackendRequest`].
pub enum BackendReply<V> {
    /// The call failed with this error.
    Failed(ErrorSource),
    /// A call without a result succeeded.
    Done,
    /// `has` or `has_table` answered.
    Flag(bool),
    /// `get` answered.
    Value(Option<V>),
    /// `get_keys` answered.
    Keys(Vec<String>),
    /// `get_all` answered.
    Values(Vec<V>),
}

/// What a run does next: ask the backend, or finish with a result.
pub enum RunStep<V> {
    /// Make this call and resume the run with its reply.
    Request(BackendRequest),
    /// The run is over.
    Finish(Result<ActionResult<V>, ActionError>),
}

/// Where a run stands, waiting for the reply to a request.
#[derive(Debug, Clone, Copy, PartialEq, Eq, Structural)]
pub enum RunStage {
    /// Waiting for the table's metadata.
    Metadata,
    /// Waiting for the main call of the operation.
    Main,
    /// Waiting for `has` or `has_table` before a delete.
    Exists,
    /// Waiting for the delete that follows a positive `has`.
    Removal,
    /// Waiting for the keys of a table.
    Keys,
    /// Waiting for every entry of a table.
    Entries,
    /// Waiting for the metadata write of a new table.
    MetadataWrite,
    /// The run is over.
    Finished,
}

/// How many more replies a run at this stage can take at most: every reply moves a run to a
/// stage of lower rank, so each run finishes after at most three calls.
pub open spec fn stage_rank(stage: RunStage) -> nat {
    match stage {
        RunStage::Metadata => 3,
        RunStage::Main | RunStage::Exists | RunStage::Keys => 2,
        RunStage::Removal | RunStage::Entries | RunStage::MetadataWrite => 1,
        RunStage::Finished => 0,
    }
}

/// The reply shape that a stage waits for.
pub open spec fn reply_fits<V>(op: RunOperation, stage: RunStage, reply: BackendReply<V>) -> bool {
    match reply {
        BackendReply::Failed(_) => stage != RunStage::Finished,
        BackendReply::Done => match stage {
            RunStage::Main => op == RunOperation::CreateEntry || op == RunOperation::UpdateEntry
                || op == RunOperation::CreateTable,
            RunStage::Removal | RunStage::MetadataWrite => true,
            _ => false,
        },
        BackendReply::Flag(_) => stage == RunStage::Exists,
        BackendReply::Value(_) => stage == RunStage::Metadata || (stage == RunStage::Main && op
            == RunOperation::ReadEntry),
        BackendReply::Keys(_) => stage == RunStage::Keys,
        BackendReply::Values(_) => stage == RunStage::Entries,
    }
}

/// The keys of a table without the metadata key, in their order.
pub open spec fn without_metadata(keys: Seq<Seq<char>>) -> Seq<Seq<char>> {
    keys.filter(|k: Seq<char>| k != metadata_key())
}

/// The characters of each string.
pub open spec fn string_views(v: Seq<String>) -> Seq<Seq<char>> {
    v.map_values(|s: String| s@)
}

/// Whether a step finishes the run with a validation error of the given type.
pub open spec fn finishes_invalid<V>(step: RunStep<V>, k: super::ActionValidationErrorType) -> bool {
    match step {
        RunStep::Finish(Err(e)) => e.spec_kind() == super::ActionErrorType::Validation && match e.spec_source() {
            Some(ErrorSource::ActionValidation(v)) => v.is_plain(k),
            _ => false,
        },
        _ => false,
    }
}

/// Whether a step finishes the run with a run error of the given type whose source is `source`.
pub open spec fn finishes_failed<V>(step: RunStep<V>, kind: ActionRunErrorType, source: ErrorSource) -> bool {
    match step {
        RunStep::Finish(Err(e)) => e.spec_kind() == super::ActionErrorType::Run && match e.spec_source() {
            Some(ErrorSource::ActionRun(v)) => v.spec_kind() == kind && v.spec_source() == Some(source),
            _ => false,
        },
        _ => false,
    }
}

/// Whether a step finishes the run with a run error of the given type that has no source.
pub open spec fn finishes_refused<V>(step: RunStep<V>, kind: ActionRunErrorType) -> bool {
    match step {
        RunStep::Finish(Err(e)) => e.spec_kind() == super::ActionErrorType::Run && match e.spec_source() {
            Some(ErrorSource::ActionRun(v)) => v.spec_kind() == kind && v.spec_source() is None,
            _ => false,
        },
        _ => false,
    }
}

/// Whether a step finishes the run successfully with `result`.
pub open spec fn finishes_with<V>(step: RunStep<V>, result: ActionResult<V>) -> bool {
    match step {
        RunStep::Finish(Ok(r)) => r == result,
        _ => false,
    }
}

/// The characters of the table and key of a request, and which call it is.
pub open spec fn request_is<V>(step: RunStep<V>, call: RequestCall, table: Seq<char>, key: Seq<char>) -> bool {
    match step {
        RunStep::Request(req) => match req {
            BackendRequest::Get { table: t, key: k } => call == RequestCall::Get && t@ == table && k@ == key,
            BackendRequest::Has { table: t, key: k } => call == RequestCall::Has && t@ == table && k@ == key,
            BackendRequest::Ensure { table: t, key: k } => call == RequestCall::Ensure && t@ == table && k@ == key,
            BackendRequest::Create { table: t, key: k } => call == RequestCall::Create && t@ == table && k@ == key,
            BackendRequest::Update { table: t, key: k } => call == RequestCall::Update && t@ == table && k@ == key,
            BackendRequest::Delete { table: t, key: k } => call == RequestCall::Delete && t@ == table && k@ == key,
            BackendRequest::HasTable { table: t } => call == RequestCall::HasTable && t@ == table,
            BackendRequest::EnsureTable { table: t } => call == RequestCall::EnsureTable && t@ == table,
            BackendRequest::CreateTable { table: t } => call == RequestCall::CreateTable && t@ == table,
            BackendRequest::EnsureMetadata { table: t } => call == RequestCall::EnsureMetadata && t@ == table,
            BackendRequest::DeleteTable { table: t } => call == RequestCall::DeleteTable && t@ == table,
            BackendRequest::GetKeys { table: t } => call == RequestCall::GetKeys && t@ == table,
            BackendRequest::GetAll { .. } => false,
        },
        _ => false,
    }
}

/// The backend calls, by name.
#[derive(Debug, Clone, Copy, PartialEq, Eq, Structural)]
pub enum RequestCall {
    /// `get`
    Get,
    /// `has`
    Has,
    /// `ensure`
    Ensure,
    /// `create`
    Create,
    /// `update`
    Update,
    /// `delete`
    Delete,
    /// `has_table`
    HasTable,
    /// `ensure_table`
    EnsureTable,
    /// `create_table`
    CreateTable,
    /// `ensure` of the metadata entry
    EnsureMetadata,
    /// `delete_table`
    DeleteTable,
    /// `get_keys`
    GetKeys,
}

/// A run of one action against a backend, driven by its caller.
pub struct ActionRun {
    op: RunOperation,
    table: String,
    key: String,
    entry_type: &'static str,
    stage: RunStage,
}

impl ActionRun {
    /// The operation being run.
    pub closed spec fn spec_op(&self) -> RunOperation {
        self.op
    }

    /// The table that the run works on.
    pub closed spec fn spec_table(&self) -> Seq<char> {
        self.table@
    }

    /// The key of the entry that the run works on; empty for table operations.
    pub closed spec fn spec_key(&self) -> Seq<char> {
        self.key@
    }

    /// Where the run stands.
    pub closed spec fn spec_stage(&self) -> RunStage {
        self.stage
    }

    /// The name of the entry type that the run reads and writes.
    pub closed spec fn spec_entry_type(&self) -> &'static str {
        self.entry_type
    }

    /// The stages that an operation passes through: table creation never checks metadata,
    /// and only the operations that need them wait for keys, entries or existence.
    pub open spec fn wf(&self) -> bool {
        let op = self.spec_op();
        match self.spec_stage() {
            RunStage::Metadata => op != RunOperation::CreateTable,
            RunStage::Main => op == RunOperation::CreateEntry || op == RunOperation::ReadEntry || op
                == RunOperation::UpdateEntry || op == RunOperation::CreateTable,
            RunStage::Exists | RunStage::Removal => op == RunOperation::DeleteEntry || op
                == RunOperation::DeleteTable,
            RunStage::Keys | RunStage::Entries => op == RunOperation::ReadTable,
            RunStage::MetadataWrite => op == RunOperation::CreateTable,
            RunStage::Finished => true,
        }
    }

    /// The run error that a failed metadata call gives.
    pub open spec fn metadata_error(&self) -> ActionRunErrorType {
        ActionRunErrorType::Metadata { entry_type: self.spec_entry_type(), table_name: self.table_string() }
    }

    /// The table, as the string that errors carry.
    pub closed spec fn table_string(&self) -> String {
        self.table
    }

    /// Whether the run is over.
    pub fn is_finished(&self) -> (r: bool)
        ensures
            r == (self.spec_stage() == RunStage::Finished),
    {
        self.stage == RunStage::Finished
    }

    /// The validation that an operation makes before any call, as the first problem found.
    pub open spec fn validation_problem<S>(op: RunOperation, a: ActionView<S>) -> Option<
        super::ActionValidationErrorType,
    > {
        match op {
            RunOperation::CreateEntry => super::first_problem(a.entry_problem(), a.table_problem()),
            RunOperation::ReadEntry | RunOperation::DeleteEntry => super::first_problem(
                a.table_problem(),
                a.key_problem(),
            ),
            RunOperation::UpdateEntry => super::first_problem(
                a.table_problem(),
                a.entry_problem(),
            ),
            _ => a.table_problem(),
        }
    }

    /// How a run of `op` over an action's state begins: an action that fails validation
    /// finishes with the first problem found; otherwise table creation asks to ensure the table,
    /// and every other operation asks for the table's metadata.
    pub open spec fn starts<S, V>(op: RunOperation, a: ActionView<S>, run: ActionRun, step: RunStep<V>) -> bool {
        match ActionRun::validation_problem(op, a) {
            Some(k) => run.spec_stage() == RunStage::Finished && finishes_invalid(step, k),
            None => {
                &&& a.table == Some(run.spec_table())
                &&& (op != RunOperation::CreateTable && op != RunOperation::ReadTable && op
                    != RunOperation::DeleteTable) ==> a.key == Some(run.spec_key())
                &&& if op == RunOperation::CreateTable {
                    run.spec_stage() == RunStage::Main && request_is(
                        step,
                        RequestCall::EnsureTable,
                        run.spec_table(),
                        Seq::empty(),
                    )
                } else {
                    run.spec_stage() == RunStage::Metadata && request_is(
                        step,
                        RequestCall::Get,
                        run.spec_table(),
                        metadata_key(),
                    )
                }
            },
        }
    }

    /// Starts running `op` over the action's state: validates it, then asks for the first call.
    /// An action that fails validation finishes with that error and never reaches the backend.
    pub fn start<'a, S, V>(op: RunOperation, inner: &InnerAction<'a, S>, entry_type: &'static str) -> (r: (
        ActionRun,
        RunStep<V>,
    ))
        ensures
            r.0.spec_op() == op,
            r.0.wf(),
            r.0.spec_entry_type() == entry_type,
            r.0.table_string()@ == r.0.spec_table(),
            ActionRun::starts(op, inner@, r.0, r.1),
    {
        let checked = match op {
            RunOperation::CreateEntry => match inner.validate_entry() {
                Ok(()) => inner.validate_table(),
                Err(e) => Err(e),
            },
            RunOperation::ReadEntry | RunOperation::DeleteEntry => match inner.validate_table() {
                Ok(()) => inner.validate_key(),
                Err(e) => Err(e),
            },
            RunOperation::UpdateEntry => match inner.validate_table() {
                Ok(()) => inner.validate_entry(),
                Err(e) => Err(e),
            },
            _ => inner.validate_table(),
        };
        let table = match inner.table {
            Some(t) => t.to_owned(),
            None => String::new(),
        };
        let key = match &inner.key {
            Some(k) => k.clone(),
            None => String::new(),
        };
        match checked {
            Err(e) => {
                let run = ActionRun { op, table, key, entry_type, stage: RunStage::Finished };
                (run, RunStep::Finish(Err(ActionError::from(e))))
            },
            Ok(()) => {
                if op == RunOperation::CreateTable {
                    let request = BackendRequest::EnsureTable { table: table.clone() };
                    (ActionRun { op, table, key, entry_type, stage: RunStage::Main }, RunStep::Request(request))
                } else {
                    let request = BackendRequest::Get {
                        table: table.clone(),
                        key: crate::util::METADATA_KEY.to_owned(),
                    };
                    proof {
                        reveal_strlit("__metadata__");
                    }
                    assert(crate::util::METADATA_KEY@ =~= metadata_key());
                    (ActionRun { op, table, key, entry_type, stage: RunStage::Metadata }, RunStep::Request(request))
                }
            },
        }
    }
}

impl<'a, S, C: super::CrudOperation, T: super::OperationTarget> super::Action<'a, S, C, T> {
    /// Starts running the action: the operation is the one of its kind and target, which must
    /// not be a table update. `entry_type` names the entry type in the errors that the run
    /// reports.
    pub fn start_run<V>(&self, entry_type: &'static str) -> (r: (ActionRun, RunStep<V>))
        requires
            spec_run_operation(C::spec_kind(), T::spec_target()) is Some,
        ensures
            Some(r.0.spec_op()) == spec_run_operation(C::spec_kind(), T::spec_target()),
            r.0.wf(),
            r.0.spec_entry_type() == entry_type,
            r.0.table_string()@ == r.0.spec_table(),
            ActionRun::starts(r.0.spec_op(), self@, r.0, r.1),
    {
        let op = match run_operation(self.kind(), self.target()) {
            Some(op) => op,
            None => vstd::pervasive::unreached(),
        };
        ActionRun::start(op, &self.inner, entry_type)
    }
}

impl<S> super::DynamicAction<S> {
    /// Starts running the action through the static action of its kind and target, which must
    /// not be a table update. `entry_type` names the entry type in the errors that the run
    /// reports.
    pub fn start_run<V>(&self, entry_type: &'static str) -> (r: (ActionRun, RunStep<V>))
        requires
            spec_run_operation(self@.kind, self@.target) is Some,
        ensures
            Some(r.0.spec_op()) == spec_run_operation(self@.kind, self@.target),
            r.0.wf(),
            r.0.spec_entry_type() == entry_type,
            r.0.table_string()@ == r.0.spec_table(),
            ActionRun::starts(r.0.spec_op(), self@.as_action(), r.0, r.1),
    {
        let op = match run_operation(self.kind(), self.target()) {
            Some(op) => op,
            None => vstd::pervasive::unreached(),
        };
        let inner = self.as_inner();
        ActionRun::start(op, &inner, entry_type)
    }
}

/// Whether a step asks for every entry of `table` under the given keys.
pub open spec fn requests_all<V>(step: RunStep<V>, table: Seq<char>, keys: Seq<Seq<char>>) -> bool {
    match step {
        RunStep::Request(BackendRequest::GetAll { table: t, keys: ks }) => t@ == table
            && string_views(ks@) == keys,
        _ => false,
    }
}

impl ActionRun {
    /// Continues the run with the reply to its last request, deciding the next call or the
    /// result. A failed call ends the run with a run error whose source is the failure: a
    /// metadata error when the call read or wrote the table's metadata, a backend error
    /// otherwise. Reading a table that has no metadata, a table that does not exist, ends
    /// with a metadata error without a source.
    pub fn resume<V>(&mut self, reply: BackendReply<V>) -> (step: RunStep<V>)
        requires
            old(self).wf(),
            reply_fits(old(self).spec_op(), old(self).spec_stage(), reply),
        ensures
            final(self).wf(),
            stage_rank(final(self).spec_stage()) < stage_rank(old(self).spec_stage()),
            final(self).spec_op() == old(self).spec_op(),
            final(self).spec_table() == old(self).spec_table(),
            final(self).spec_key() == old(self).spec_key(),
            final(self).spec_entry_type() == old(self).spec_entry_type(),
            final(self).table_string() == old(self).table_string(),
            ({
                let op = old(self).spec_op();
                let stage = old(self).spec_stage();
                let table = old(self).spec_table();
                let key = old(self).spec_key();
                let next = final(self).spec_stage();
                match reply {
                    BackendReply::Failed(src) => next == RunStage::Finished && if stage
                        == RunStage::Metadata || stage == RunStage::MetadataWrite {
                        finishes_failed(step, old(self).metadata_error(), src)
                    } else {
                        finishes_failed(step, ActionRunErrorType::Backend, src)
                    },
                    BackendReply::Value(v) => if stage == RunStage::Metadata {
                        match op {
                            RunOperation::CreateEntry => next == RunStage::Main && request_is(
                                step,
                                RequestCall::Ensure,
                                table,
                                key,
                            ),
                            RunOperation::ReadEntry => next == RunStage::Main && request_is(
                                step,
                                RequestCall::Get,
                                table,
                                key,
                            ),
                            RunOperation::UpdateEntry => next == RunStage::Main && request_is(
                                step,
                                RequestCall::Update,
                                table,
                                key,
                            ),
                            RunOperation::DeleteEntry => next == RunStage::Exists && request_is(
                                step,
                                RequestCall::Has,
                                table,
                                key,
                            ),
                            RunOperation::ReadTable => if v is None {
                                next == RunStage::Finished && finishes_refused(
                                    step,
                                    old(self).metadata_error(),
                                )
                            } else {
                                next == RunStage::Keys && request_is(
                                    step,
                                    RequestCall::GetKeys,
                                    table,
                                    Seq::empty(),
                                )
                            },
                            _ => next == RunStage::Exists && request_is(
                                step,
                                RequestCall::HasTable,
                                table,
                                Seq::empty(),
                            ),
                        }
                    } else {
                        next == RunStage::Finished && finishes_with(step, ActionResult::ReadSingle(v))
                    },
                    BackendReply::Done => if stage == RunStage::Main && op == RunOperation::CreateTable {
                        next == RunStage::MetadataWrite && request_is(
                            step,
                            RequestCall::EnsureMetadata,
                            table,
                            Seq::empty(),
                        )
                    } else if stage == RunStage::Removal {
                        next == RunStage::Finished && finishes_with(step, ActionResult::Delete(true))
                    } else if op == RunOperation::UpdateEntry {
                        next == RunStage::Finished && finishes_with(step, ActionResult::Update)
                    } else {
                        next == RunStage::Finished && finishes_with(step, ActionResult::Create)
                    },
                    BackendReply::Flag(exists) => if exists {
                        next == RunStage::Removal && if op == RunOperation::DeleteEntry {
                            request_is(step, RequestCall::Delete, table, key)
                        } else {
                            request_is(step, RequestCall::DeleteTable, table, Seq::empty())
                        }
                    } else {
                        next == RunStage::Finished && finishes_with(step, ActionResult::Delete(false))
                    },
                    BackendReply::Keys(ks) => next == RunStage::Entries && requests_all(
                        step,
                        table,
                        without_metadata(string_views(ks@)),
                    ),
                    BackendReply::Values(vs) => next == RunStage::Finished && finishes_with(
                        step,
                        ActionResult::ReadMultiple(vs),
                    ),
                }
            }),
    {
        let table = self.table.clone();
        let key = self.key.clone();
        match reply {
            BackendReply::Failed(src) => {
                let kind = if self.stage == RunStage::Metadata || self.stage == RunStage::MetadataWrite {
                    ActionRunErrorType::Metadata { entry_type: self.entry_type, table_name: table }
                } else {
                    ActionRunErrorType::Backend
                };
                self.stage = RunStage::Finished;
                RunStep::Finish(Err(ActionError::from(ActionRunError::new(kind, Some(src)))))
            },
            BackendReply::Value(v) => {
                if self.stage == RunStage::Metadata {
                    match self.op {
                        RunOperation::CreateEntry => {
                            self.stage = RunStage::Main;
                            RunStep::Request(BackendRequest::Ensure { table, key })
                        },
                        RunOperation::ReadEntry => {
                            self.stage = RunStage::Main;
                            RunStep::Request(BackendRequest::Get { table, key })
                        },
                        RunOperation::UpdateEntry => {
                            self.stage = RunStage::Main;
                            RunStep::Request(BackendRequest::Update { table, key })
                        },
                        RunOperation::DeleteEntry => {
                            self.stage = RunStage::Exists;
                            RunStep::Request(BackendRequest::Has { table, key })
                        },
                        RunOperation::ReadTable => {
                            if v.is_none() {
                                let kind = ActionRunErrorType::Metadata {
                                    entry_type: self.entry_type,
                                    table_name: table,
                                };
                                self.stage = RunStage::Finished;
                                RunStep::Finish(Err(ActionError::from(ActionRunError::new(kind, None))))
                            } else {
                                self.stage = RunStage::Keys;
                                RunStep::Request(BackendRequest::GetKeys { table })
                            }
                        },
                        _ => {
                            self.stage = RunStage::Exists;
                            RunStep::Request(BackendRequest::HasTable { table })
                        },
                    }
                } else {
                    self.stage = RunStage::Finished;
                    RunStep::Finish(Ok(ActionResult::ReadSingle(v)))
                }
            },
            BackendReply::Done => {
                if self.stage == RunStage::Main && self.op == RunOperation::CreateTable {
                    self.stage = RunStage::MetadataWrite;
                    RunStep::Request(BackendRequest::EnsureMetadata { table })
                } else if self.stage == RunStage::Removal {
                    self.stage = RunStage::Finished;
                    RunStep::Finish(Ok(ActionResult::Delete(true)))
                } else if self.op == RunOperation::UpdateEntry {
                    self.stage = RunStage::Finished;
                    RunStep::Finish(Ok(ActionResult::Update))
                } else {
                    self.stage = RunStage::Finished;
                    RunStep::Finish(Ok(ActionResult::Create))
                }
            },
            BackendReply::Flag(exists) => {
                if exists {
                    self.stage = RunStage::Removal;
                    if self.op == RunOperation::DeleteEntry {
                        RunStep::Request(BackendRequest::Delete { table, key })
                    } else {
                        RunStep::Request(BackendRequest::DeleteTable { table })
                    }
                } else {
                    self.stage = RunStage::Finished;
                    RunStep::Finish(Ok(ActionResult::Delete(false)))
                }
            },
            BackendReply::Keys(ks) => {
                let keys = keys_without_metadata(&ks);
                self.stage = RunStage::Entries;
                RunStep::Request(BackendRequest::GetAll { table, keys })
            },
            BackendReply::Values(vs) => {
                self.stage = RunStage::Finished;
                RunStep::Finish(Ok(ActionResult::ReadMultiple(vs)))
            },
        }
    }
}

/// The keys of a table without the metadata key, in their order.
pub fn keys_without_metadata(keys: &Vec<String>) -> (r: Vec<String>)
    ensures
        string_views(r@) == without_metadata(string_views(keys@)),
{
    let mut r: Vec<String> = Vec::new();
    let mut i: usize = 0;
    while i < keys.len()
        invariant
            i <= keys.len(),
            string_views(r@) == without_metadata(string_views(keys@.subrange(0, i as int))),
        decreases keys.len() - i,
    {
        let ghost before = keys@.subrange(0, i as int);
        let ghost after = keys@.subrange(0, i + 1);
        assert(after.drop_last() =~= before);
        assert(string_views(after).drop_last() =~= string_views(before));
        reveal_with_fuel(Seq::filter, 1);
        if !is_metadata(keys[i].as_str()) {
            r.push(keys[i].clone());
            assert(string_views(r@) =~= string_views(before).filter(|k: Seq<char>| k != metadata_key()).push(keys@[i as int]@));
        }
        i = i + 1;
    }
    assert(keys@.subrange(0, keys.len() as int) =~= keys@);
    r
}

} // verus!
