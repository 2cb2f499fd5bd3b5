//! Direct access to the entries of a chart.
use vstd::prelude::*;

use crate::action::{
    keys_without_metadata, request_is, requests_all, string_views, without_metadata, ActionResult,
    BackendReply, BackendRequest, RequestCall, RunOperation,
};
use crate::error::ErrorSource;
use crate::util::{is_metadata, metadata_key};

verus! {

/// An error that occurred while accessing data.
#[derive(Debug)]
pub struct AccessorError {
    pub(crate) source: Option<ErrorSource>,
    pub(crate) kind: AccessorErrorType,
}

/// The type of [`AccessorError`] that occurred.
#[derive(Debug)]
pub enum AccessorErrorType {
    /// An error occurred with the backend.
    Backend,
    /// The metadata key was used, or an entry did not match a table's metadata.
    Metadata {
        /// The type and table that did not match, if this was a mismatch.
        type_and_table: Option<(&'static str, String)>,
    },
}

impl AccessorError {
    /// The type of error.
    pub closed spec fn spec_kind(&self) -> AccessorErrorType {
        self.kind
    }

    /// The source error, if any.
    pub closed spec fn spec_source(&self) -> Option<ErrorSource> {
        self.source
    }

    /// The error's message.
    pub fn to_string(&self) -> (s: String)
        ensures
            self.spec_kind() is Backend ==> s@ == "an error occurred with the backend"@,
            self.spec_kind() matches AccessorErrorType::Metadata { type_and_table } ==> match type_and_table {
                Some((entry_type, table_name)) => s@ == "invalid entry was provided, "@ + entry_type@
                    + "does not match the metadata for table "@ + table_name@,
                None => s@ == "the `__metadata__` key is restricted"@,
            },
    {
        match &self.kind {
            AccessorErrorType::Backend => "an error occurred with the backend".to_owned(),
            AccessorErrorType::Metadata { type_and_table } => match type_and_table {
                Some((entry_type, table_name)) => {
                    let mut s = "invalid entry was provided, ".to_owned();
                    s.append(entry_type);
                    s.append("does not match the metadata for table ");
                    s.append(table_name.as_str());
                    s
                },
                None => "the `__metadata__` key is restricted".to_owned(),
            },
        }
    }
}

/// Rejects the reserved metadata key as a table or entry name.
pub fn validate_metadata(key: &str) -> (r: Result<(), AccessorError>)
    ensures
        key@ == metadata_key() ==> (r matches Err(e) && e.spec_source() is None && e.spec_kind() == (
        AccessorErrorType::Metadata { type_and_table: None })),
        key@ != metadata_key() ==> r is Ok,
{
    if is_metadata(key) {
        return Err(
            AccessorError {
                source: None,
                kind: AccessorErrorType::Metadata { type_and_table: None },
            },
        );
    }
    Ok(())
}

/// What an access does next: ask the backend, or finish with a result.
pub enum AccessStep<V> {
    /// Make this call and resume the access with its reply.
    Request(BackendRequest),
    /// The access is over.
    Finish(Result<ActionResult<V>, AccessorError>),
}

/// Where an access stands, waiting for the reply to a request.
#[derive(Debug, Clone, Copy, PartialEq, Eq, Structural)]
pub enum AccessStage {
    /// Waiting for `has` before creating an entry.
    Presence,
    /// Waiting for the table's metadata.
    Metadata,
    /// Waiting for the main call of the operation.
    Main,
    /// Waiting for `has` or `has_table` before a delete.
    Exists,
    /// Waiting for the delete.
    Removal,
    /// Waiting for `has` or `has_table` after a delete.
    Recheck,
    /// Waiting for the keys of a table.
    Keys,
    /// Waiting for every entry of a table.
    Entries,
    /// Waiting for the metadata write of a new table.
    MetadataWrite,
    /// The access is over.
    Finished,
}

/// How many more replies an access at this stage can take at most: every reply moves an
/// access to a stage of lower rank, so each access finishes after at most five calls.
pub open spec fn access_stage_rank(stage: AccessStage) -> nat {
    match stage {
        AccessStage::Presence => 5,
        AccessStage::Metadata => 4,
        AccessStage::Exists => 3,
        AccessStage::Main | AccessStage::Keys | AccessStage::Removal => 2,
        AccessStage::Recheck | AccessStage::Entries | AccessStage::MetadataWrite => 1,
        AccessStage::Finished => 0,
    }
}

/// The reply shape that a stage waits for.
pub open spec fn access_reply_fits<V>(op: RunOperation, stage: AccessStage, reply: BackendReply<V>) -> bool {
    match reply {
        BackendReply::Failed(_) => stage != AccessStage::Finished,
        BackendReply::Done => match stage {
            AccessStage::Main => op == RunOperation::CreateEntry || op == RunOperation::UpdateEntry
                || op == RunOperation::CreateTable,
            AccessStage::Removal | AccessStage::MetadataWrite => true,
            _ => false,
        },
        BackendReply::Flag(_) => stage == AccessStage::Presence || stage == AccessStage::Exists
            || stage == AccessStage::Recheck,
        BackendReply::Value(_) => stage == AccessStage::Metadata || (stage == AccessStage::Main
            && op == RunOperation::ReadEntry),
        BackendReply::Keys(_) => stage == AccessStage::Keys,
        BackendReply::Values(_) => stage == AccessStage::Entries,
    }
}

/// Whether a step finishes the access with an error of the given type whose source is
/// `source`.
pub open spec fn access_fails<V>(step: AccessStep<V>, kind: AccessorErrorType, source: Option<ErrorSource>) -> bool {
    match step {
        AccessStep::Finish(Err(e)) => e.spec_kind() == kind && e.spec_source() == source,
        _ => false,
    }
}

/// Whether a step finishes the access successfully with `result`.
pub open spec fn access_finishes_with<V>(step: AccessStep<V>, result: ActionResult<V>) -> bool {
    match step {
        AccessStep::Finish(Ok(r)) => r == result,
        _ => false,
    }
}

/// Whether a step is the given request, as [`request_is`] says of a run's step.
pub open spec fn access_request_is<V>(
    step: AccessStep<V>,
    call: RequestCall,
    table: Seq<char>,
    key: Seq<char>,
) -> bool {
    match step {
        AccessStep::Request(req) => request_is::<V>(crate::action::RunStep::Request(req), call, table, key),
        _ => false,
    }
}

/// Whether a step asks for every entry of `table` under the given keys.
pub open spec fn access_requests_all<V>(step: AccessStep<V>, table: Seq<char>, keys: Seq<Seq<char>>) -> bool {
    match step {
        AccessStep::Request(req) => requests_all::<V>(crate::action::RunStep::Request(req), table, keys),
        _ => false,
    }
}

/// One access to the entries of a chart, driven by its caller: the calls that it makes to the
/// backend and what it concludes from their replies.
pub struct AccessRun {
    op: RunOperation,
    table: String,
    key: String,
    entry_type: &'static str,
    stage: AccessStage,
    existed: bool,
}

impl AccessRun {
    /// The operation being run.
    pub closed spec fn spec_op(&self) -> RunOperation {
        self.op
    }

    /// The table that the access works on.
    pub closed spec fn spec_table(&self) -> Seq<char> {
        self.table@
    }

    /// The key of the entry that the access works on; empty for table operations.
    pub closed spec fn spec_key(&self) -> Seq<char> {
        self.key@
    }

    /// Where the access stands.
    pub closed spec fn spec_stage(&self) -> AccessStage {
        self.stage
    }

    /// Whether the entry or table existed before the delete.
    pub closed spec fn spec_existed(&self) -> bool {
        self.existed
    }

    /// The error that a failed metadata call gives.
    pub closed spec fn metadata_error(&self) -> AccessorErrorType {
        AccessorErrorType::Metadata { type_and_table: Some((self.entry_type, self.table)) }
    }

    /// The stages that an operation passes through.
    pub open spec fn wf(&self) -> bool {
        let op = self.spec_op();
        match self.spec_stage() {
            AccessStage::Presence => op == RunOperation::CreateEntry,
            AccessStage::Metadata => op != RunOperation::CreateTable,
            AccessStage::Main => op == RunOperation::CreateEntry || op == RunOperation::ReadEntry
                || op == RunOperation::UpdateEntry || op == RunOperation::CreateTable,
            AccessStage::Exists | AccessStage::Removal | AccessStage::Recheck => op
                == RunOperation::DeleteEntry || op == RunOperation::DeleteTable,
            AccessStage::Keys | AccessStage::Entries => op == RunOperation::ReadTable,
            AccessStage::MetadataWrite => op == RunOperation::CreateTable,
            AccessStage::Finished => true,
        }
    }

    /// Whether an operation works on one entry.
    pub open spec fn on_entry(op: RunOperation) -> bool {
        op == RunOperation::CreateEntry || op == RunOperation::ReadEntry || op
            == RunOperation::UpdateEntry || op == RunOperation::DeleteEntry
    }

    /// Whether the access is over.
    pub fn is_finished(&self) -> (r: bool)
        ensures
            r == (self.spec_stage() == AccessStage::Finished),
    {
        self.stage == AccessStage::Finished
    }

    /// Starts an access: the table, and the key of an entry operation, must not be the metadata
    /// key, and an access that names it finishes with [`AccessorErrorType::Metadata`] before any
    /// call. Table creation starts with the table itself, entry creation with whether the entry
    /// exists, every other operation with the table's metadata.
    pub fn start<V>(op: RunOperation, table: &str, key: &str, entry_type: &'static str) -> (r: (
        AccessRun,
        AccessStep<V>,
    ))
        ensures
            r.0.spec_op() == op,
            r.0.wf(),
            r.0.spec_table() == table@,
            r.0.metadata_error() matches AccessorErrorType::Metadata {
                type_and_table: Some((t, name)),
            } && t == entry_type && name@ == table@,
            Self::on_entry(op) ==> r.0.spec_key() == key@,
            !Self::on_entry(op) ==> r.0.spec_key() == Seq::<char>::empty(),
            if table@ == metadata_key() || (Self::on_entry(op) && key@ == metadata_key()) {
                r.0.spec_stage() == AccessStage::Finished && access_fails(
                    r.1,
                    AccessorErrorType::Metadata { type_and_table: None },
                    None,
                )
            } else if op == RunOperation::CreateTable {
                r.0.spec_stage() == AccessStage::Main && access_request_is(
                    r.1,
                    RequestCall::CreateTable,
                    table@,
                    Seq::empty(),
                )
            } else if op == RunOperation::CreateEntry {
                r.0.spec_stage() == AccessStage::Presence && access_request_is(
                    r.1,
                    RequestCall::Has,
                    table@,
                    key@,
                )
            } else {
                r.0.spec_stage() == AccessStage::Metadata && access_request_is(
                    r.1,
                    RequestCall::Get,
                    table@,
                    metadata_key(),
                )
            },
    {
        let on_entry = op == RunOperation::CreateEntry || op == RunOperation::ReadEntry || op
            == RunOperation::UpdateEntry || op == RunOperation::DeleteEntry;
        let key_text = if on_entry {
            key.to_owned()
        } else {
            String::new()
        };
        let mut run = AccessRun {
            op,
            table: table.to_owned(),
            key: key_text,
            entry_type,
            stage: AccessStage::Finished,
            existed: false,
        };
        let checked = match validate_metadata(table) {
            Err(e) => Err(e),
            Ok(()) => if on_entry {
                validate_metadata(key)
            } else {
                Ok(())
            },
        };
        match checked {
            Err(e) => (run, AccessStep::Finish(Err(e))),
            Ok(()) => {
                if op == RunOperation::CreateTable {
                    run.stage = AccessStage::Main;
                    (run, AccessStep::Request(BackendRequest::CreateTable { table: table.to_owned() }))
                } else if op == RunOperation::CreateEntry {
                    run.stage = AccessStage::Presence;
                    (
                        run,
                        AccessStep::Request(
                            BackendRequest::Has { table: table.to_owned(), key: key.to_owned() },
                        ),
                    )
                } else {
                    run.stage = AccessStage::Metadata;
                    proof {
                        reveal_strlit("__metadata__");
                    }
                    assert(crate::util::METADATA_KEY@ =~= metadata_key());
                    (
                        run,
                        AccessStep::Request(
                            BackendRequest::Get {
                                table: table.to_owned(),
                                key: crate::util::METADATA_KEY.to_owned(),
                            },
                        ),
                    )
                }
            },
        }
    }

    /// Continues the access with the reply to its last request. A failed call ends the access
    /// with the failure as the source: a metadata error naming the entry type and the table
    /// when the call read or wrote the table's metadata, a backend error otherwise. Reading a
    /// table that has no metadata, a table that does not exist, ends with that metadata error
    /// without a source.
    pub fn resume<V>(&mut self, reply: BackendReply<V>) -> (step: AccessStep<V>)
        requires
            old(self).wf(),
            access_reply_fits(old(self).spec_op(), old(self).spec_stage(), reply),
        ensures
            final(self).wf(),
            access_stage_rank(final(self).spec_stage()) < access_stage_rank(old(self).spec_stage()),
            final(self).spec_op() == old(self).spec_op(),
            final(self).spec_table() == old(self).spec_table(),
            final(self).spec_key() == old(self).spec_key(),
            final(self).metadata_error() == old(self).metadata_error(),
            ({
                let op = old(self).spec_op();
                let stage = old(self).spec_stage();
                let table = old(self).spec_table();
                let key = old(self).spec_key();
                let next = final(self).spec_stage();
                let entry_op = op == RunOperation::DeleteEntry;
                match reply {
                    BackendReply::Failed(src) => next == AccessStage::Finished && if stage
                        == AccessStage::Metadata || stage == AccessStage::MetadataWrite {
                        access_fails(step, old(self).metadata_error(), Some(src))
                    } else {
                        access_fails(step, AccessorErrorType::Backend, Some(src))
                    },
                    BackendReply::Flag(flag) => if stage == AccessStage::Presence {
                        if flag {
                            next == AccessStage::Finished && access_finishes_with(step, ActionResult::Create)
                        } else {
                            next == AccessStage::Metadata && access_request_is(
                                step,
                                RequestCall::Get,
                                table,
                                metadata_key(),
                            )
                        }
                    } else if stage == AccessStage::Exists {
                        next == AccessStage::Removal && final(self).spec_existed() == flag && if entry_op {
                            access_request_is(step, RequestCall::Delete, table, key)
                        } else {
                            access_request_is(step, RequestCall::DeleteTable, table, Seq::empty())
                        }
                    } else {
                        next == AccessStage::Finished && access_finishes_with(
                            step,
                            ActionResult::Delete(old(self).spec_existed() != flag),
                        )
                    },
                    BackendReply::Value(v) => if stage == AccessStage::Metadata {
                        match op {
                            RunOperation::CreateEntry => next == AccessStage::Main && access_request_is(
                                step,
                                RequestCall::Create,
                                table,
                                key,
                            ),
                            RunOperation::ReadEntry => next == AccessStage::Main && access_request_is(
                                step,
                                RequestCall::Get,
                                table,
                                key,
                            ),
                            RunOperation::UpdateEntry => next == AccessStage::Main && access_request_is(
                                step,
                                RequestCall::Update,
                                table,
                                key,
                            ),
                            RunOperation::DeleteEntry => next == AccessStage::Exists && access_request_is(
                                step,
                                RequestCall::Has,
                                table,
                                key,
                            ),
                            RunOperation::ReadTable => if v is None {
                                next == AccessStage::Finished && access_fails(
                                    step,
                                    old(self).metadata_error(),
                                    None,
                                )
                            } else {
                                next == AccessStage::Keys && access_request_is(
                                    step,
                                    RequestCall::GetKeys,
                                    table,
                                    Seq::empty(),
                                )
                            },
                            _ => next == AccessStage::Exists && access_request_is(
                                step,
                                RequestCall::HasTable,
                                table,
                                Seq::empty(),
                            ),
                        }
                    } else {
                        next == AccessStage::Finished && access_finishes_with(step, ActionResult::ReadSingle(v))
                    },
                    BackendReply::Done => if stage == AccessStage::Main && op == RunOperation::CreateTable {
                        next == AccessStage::MetadataWrite && access_request_is(
                            step,
                            RequestCall::EnsureMetadata,
                            table,
                            Seq::empty(),
                        )
                    } else if stage == AccessStage::Removal {
                        next == AccessStage::Recheck && final(self).spec_existed()
                            == old(self).spec_existed() && if entry_op {
                            access_request_is(step, RequestCall::Has, table, key)
                        } else {
                            access_request_is(step, RequestCall::HasTable, table, Seq::empty())
                        }
                    } else if op == RunOperation::UpdateEntry {
                        next == AccessStage::Finished && access_finishes_with(step, ActionResult::Update)
                    } else {
                        next == AccessStage::Finished && access_finishes_with(step, ActionResult::Create)
                    },
                    BackendReply::Keys(ks) => next == AccessStage::Entries && access_requests_all(
                        step,
                        table,
                        without_metadata(string_views(ks@)),
                    ),
                    BackendReply::Values(vs) => next == AccessStage::Finished && access_finishes_with(
                        step,
                        ActionResult::ReadMultiple(vs),
                    ),
                }
            }),
    {
        let table = self.table.clone();
        let key = self.key.clone();
        match reply {
            BackendReply::Failed(src) => {
                let kind = if self.stage == AccessStage::Metadata || self.stage
                    == AccessStage::MetadataWrite {
                    AccessorErrorType::Metadata { type_and_table: Some((self.entry_type, table)) }
                } else {
                    AccessorErrorType::Backend
                };
                self.stage = AccessStage::Finished;
                AccessStep::Finish(Err(AccessorError { source: Some(src), kind }))
            },
            BackendReply::Flag(flag) => {
                if self.stage == AccessStage::Presence {
                    if flag {
                        self.stage = AccessStage::Finished;
                        AccessStep::Finish(Ok(ActionResult::Create))
                    } else {
                        self.stage = AccessStage::Metadata;
                        proof {
                            reveal_strlit("__metadata__");
                        }
                        assert(crate::util::METADATA_KEY@ =~= metadata_key());
                        AccessStep::Request(
                            BackendRequest::Get { table, key: crate::util::METADATA_KEY.to_owned() },
                        )
                    }
                } else if self.stage == AccessStage::Exists {
                    self.existed = flag;
                    self.stage = AccessStage::Removal;
                    if self.op == RunOperation::DeleteEntry {
                        AccessStep::Request(BackendRequest::Delete { table, key })
                    } else {
                        AccessStep::Request(BackendRequest::DeleteTable { table })
                    }
                } else {
                    self.stage = AccessStage::Finished;
                    AccessStep::Finish(Ok(ActionResult::Delete(self.existed != flag)))
                }
            },
            BackendReply::Value(v) => {
                if self.stage == AccessStage::Metadata {
                    match self.op {
                        RunOperation::CreateEntry => {
                            self.stage = AccessStage::Main;
                            AccessStep::Request(BackendRequest::Create { table, key })
                        },
                        RunOperation::ReadEntry => {
                            self.stage = AccessStage::Main;
                            AccessStep::Request(BackendRequest::Get { table, key })
                        },
                        RunOperation::UpdateEntry => {
                            self.stage = AccessStage::Main;
                            AccessStep::Request(BackendRequest::Update { table, key })
                        },
                        RunOperation::DeleteEntry => {
                            self.stage = AccessStage::Exists;
                            AccessStep::Request(BackendRequest::Has { table, key })
                        },
                        RunOperation::ReadTable => {
                            if v.is_none() {
                                let kind = AccessorErrorType::Metadata {
                                    type_and_table: Some((self.entry_type, table)),
                                };
                                self.stage = AccessStage::Finished;
                                AccessStep::Finish(Err(AccessorError { source: None, kind }))
                            } else {
                                self.stage = AccessStage::Keys;
                                AccessStep::Request(BackendRequest::GetKeys { table })
                            }
                        },
                        _ => {
                            self.stage = AccessStage::Exists;
                            AccessStep::Request(BackendRequest::HasTable { table })
                        },
                    }
                } else {
                    self.stage = AccessStage::Finished;
                    AccessStep::Finish(Ok(ActionResult::ReadSingle(v)))
                }
            },
            BackendReply::Done => {
                if self.stage == AccessStage::Main && self.op == RunOperation::CreateTable {
                    self.stage = AccessStage::MetadataWrite;
                    AccessStep::Request(BackendRequest::EnsureMetadata { table })
                } else if self.stage == AccessStage::Removal {
                    self.stage = AccessStage::Recheck;
                    if self.op == RunOperation::DeleteEntry {
                        AccessStep::Request(BackendRequest::Has { table, key })
                    } else {
                        AccessStep::Request(BackendRequest::HasTable { table })
                    }
                } else if self.op == RunOperation::UpdateEntry {
                    self.stage = AccessStage::Finished;
                    AccessStep::Finish(Ok(ActionResult::Update))
                } else {
                    self.stage = AccessStage::Finished;
                    AccessStep::Finish(Ok(ActionResult::Create))
                }
            },
            BackendReply::Keys(ks) => {
                let keys = keys_without_metadata(&ks);
                self.stage = AccessStage::Entries;
                AccessStep::Request(BackendRequest::GetAll { table, keys })
            },
            BackendReply::Values(vs) => {
                self.stage = AccessStage::Finished;
                AccessStep::Finish(Ok(ActionResult::ReadMultiple(vs)))
            },
        }
    }
}

} // verus!
