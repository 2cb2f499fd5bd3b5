//! The memory backend answering the calls that a running action or access makes, and running
//! whole actions and accesses over [`Value`]s against it.
use vstd::prelude::*;

use serde_value::Value;

use super::memory::{
    after_create, after_delete, empty_table, selected_from, str_views, stored_value,
    MemoryBackend,
};
use crate::action::{
    spec_run_operation, string_views, Action, ActionError, ActionErrorType, ActionResult,
    ActionRun, ActionRunErrorType, ActionValidationErrorType, ActionView, BackendReply, BackendRequest,
    CrudOperation, OperationTarget, RunOperation, RunStep,
};
use crate::accessor::{AccessRun, AccessStep, AccessorError, AccessorErrorType};
use crate::error::ErrorSource;
use crate::util::metadata_key;

verus! {

/// The tables after storing `value` under `id` in `table` unless an entry is already there.
pub open spec fn after_ensure(
    tables: Map<Seq<char>, Map<Seq<char>, Value>>,
    table: Seq<char>,
    id: Seq<char>,
    value: Value,
) -> Map<Seq<char>, Map<Seq<char>, Value>> {
    if stored_value(tables, table, id) is Some {
        tables
    } else {
        after_create(tables, table, id, value)
    }
}

/// The tables after creating `table` unless it exists.
pub open spec fn after_ensure_table(
    tables: Map<Seq<char>, Map<Seq<char>, Value>>,
    table: Seq<char>,
) -> Map<Seq<char>, Map<Seq<char>, Value>> {
    if tables.contains_key(table) {
        tables
    } else {
        tables.insert(table, empty_table())
    }
}

/// Whether `keys` lists, each once, the keys of `table`; none when there is no such table.
pub open spec fn lists_keys(
    keys: Seq<Seq<char>>,
    tables: Map<Seq<char>, Map<Seq<char>, Value>>,
    table: Seq<char>,
) -> bool {
    &&& forall|i: int, j: int| 0 <= i < j < keys.len() ==> keys[i] != keys[j]
    &&& tables.contains_key(table) ==> forall|k: Seq<char>|
        tables[table].contains_key(k) <==> keys.contains(k)
    &&& !tables.contains_key(table) ==> keys.len() == 0
}

/// Whether `values` holds, each once, the values of the entries of `table` under `wanted` keys;
/// none when there is no such table.
pub open spec fn lists_values(
    values: Seq<Value>,
    tables: Map<Seq<char>, Map<Seq<char>, Value>>,
    table: Seq<char>,
    wanted: Seq<Seq<char>>,
) -> bool {
    &&& tables.contains_key(table) ==> exists|found: Seq<Seq<char>>| #[trigger]
        selected_from(found, tables[table], wanted) && values == found.map_values(
            |k: Seq<char>| tables[table][k],
        )
    &&& !tables.contains_key(table) ==> values.len() == 0
}

/// What the memory backend answers to a call, and the tables it leaves, when `data` is the
/// entry written and `metadata` the metadata of a new table.
pub open spec fn served(
    request: BackendRequest,
    data: Value,
    metadata: Value,
    before: Map<Seq<char>, Map<Seq<char>, Value>>,
    reply: BackendReply<Value>,
    after: Map<Seq<char>, Map<Seq<char>, Value>>,
) -> bool {
    match request {
        BackendRequest::Get { table, key } => after == before && reply == BackendReply::<
            Value,
        >::Value(stored_value(before, table@, key@)),
        BackendRequest::Has { table, key } => after == before && reply == BackendReply::<
            Value,
        >::Flag(stored_value(before, table@, key@) is Some),
        BackendRequest::HasTable { table } => after == before && reply == BackendReply::<
            Value,
        >::Flag(before.contains_key(table@)),
        BackendRequest::Ensure { table, key } => reply is Done && after == after_ensure(
            before,
            table@,
            key@,
            data,
        ),
        BackendRequest::Create { table, key } => reply is Done && after == after_create(
            before,
            table@,
            key@,
            data,
        ),
        BackendRequest::Update { table, key } => reply is Done && after == after_create(
            before,
            table@,
            key@,
            data,
        ),
        BackendRequest::Delete { table, key } => reply is Done && after == after_delete(
            before,
            table@,
            key@,
        ),
        BackendRequest::EnsureTable { table } => reply is Done && after == after_ensure_table(
            before,
            table@,
        ),
        BackendRequest::CreateTable { table } => reply is Done && after == before.insert(
            table@,
            empty_table(),
        ),
        BackendRequest::EnsureMetadata { table } => reply is Done && after == after_ensure(
            before,
            table@,
            metadata_key(),
            metadata,
        ),
        BackendRequest::DeleteTable { table } => reply is Done && after == before.remove(table@),
        BackendRequest::GetKeys { table } => after == before && (reply matches BackendReply::Keys(
            ks,
        ) && lists_keys(string_views(ks@), before, table@)),
        BackendRequest::GetAll { table, keys } => after == before && (reply matches BackendReply::Values(
            vs,
        ) && lists_values(vs@, before, table@, string_views(keys@))),
    }
}

/// Whether `values` holds, each once, the values of the entries of `table` other than its
/// metadata.
pub open spec fn lists_entries(
    values: Seq<Value>,
    tables: Map<Seq<char>, Map<Seq<char>, Value>>,
    table: Seq<char>,
) -> bool {
    exists|found: Seq<Seq<char>>| #[trigger] lists_entry_keys(found, tables[table])
        && values == found.map_values(|k: Seq<char>| tables[table][k])
}

/// Whether `found` lists, each once, the keys of `entries` other than the metadata key.
pub open spec fn lists_entry_keys(found: Seq<Seq<char>>, entries: Map<Seq<char>, Value>) -> bool {
    &&& forall|a: int, b: int| 0 <= a < b < found.len() ==> found[a] != found[b]
    &&& forall|k: Seq<char>| #[trigger]
        found.contains(k) <==> (entries.contains_key(k) && k != metadata_key())
}

/// Whether a run's result is the validation error of the given type.
pub open spec fn invalid_with(r: Result<ActionResult<Value>, ActionError>, k: ActionValidationErrorType) -> bool {
    r matches Err(e) && e.spec_kind() == ActionErrorType::Validation && match e.spec_source() {
        Some(ErrorSource::ActionValidation(v)) => v.is_plain(k),
        _ => false,
    }
}

/// Whether a run's result is the metadata error, without a source, of reading a table that
/// has no metadata: it names the entry type `Value` and the table.
pub open spec fn missing_metadata(r: Result<ActionResult<Value>, ActionError>, table: Seq<char>) -> bool {
    r matches Err(e) && e.spec_kind() == ActionErrorType::Run && match e.spec_source() {
        Some(ErrorSource::ActionRun(v)) => v.spec_source() is None && match v.spec_kind() {
            ActionRunErrorType::Metadata { entry_type, table_name } => entry_type@ == "Value"@
                && table_name@ == table,
            _ => false,
        },
        _ => false,
    }
}

/// What running an action over `Value`s against the memory backend gives, and the tables it
/// leaves: a valid action makes its calls in order, each answered as [`served`] says.
pub open spec fn ran(
    op: RunOperation,
    action: ActionView<Value>,
    metadata: Value,
    before: Map<Seq<char>, Map<Seq<char>, Value>>,
    r: Result<ActionResult<Value>, ActionError>,
    after: Map<Seq<char>, Map<Seq<char>, Value>>,
) -> bool {
    match ActionRun::validation_problem(op, action) {
        Some(k) => invalid_with(r, k) && after == before,
        None => {
            let table = action.table->0;
            let key = action.key->0;
            match op {
                RunOperation::CreateEntry => r == Ok::<ActionResult<Value>, ActionError>(
                    ActionResult::Create,
                ) && after == after_ensure(before, table, key, action.data->0),
                RunOperation::ReadEntry => r == Ok::<ActionResult<Value>, ActionError>(
                    ActionResult::ReadSingle(stored_value(before, table, key)),
                ) && after == before,
                RunOperation::UpdateEntry => r == Ok::<ActionResult<Value>, ActionError>(
                    ActionResult::Update,
                ) && after == after_create(before, table, key, action.data->0),
                RunOperation::DeleteEntry => r == Ok::<ActionResult<Value>, ActionError>(
                    ActionResult::Delete(stored_value(before, table, key) is Some),
                ) && after == (if stored_value(before, table, key) is Some {
                    after_delete(before, table, key)
                } else {
                    before
                }),
                RunOperation::CreateTable => r == Ok::<ActionResult<Value>, ActionError>(
                    ActionResult::Create,
                ) && after == after_ensure(
                    after_ensure_table(before, table),
                    table,
                    metadata_key(),
                    metadata,
                ),
                RunOperation::ReadTable => after == before && if stored_value(
                    before,
                    table,
                    metadata_key(),
                ) is None {
                    missing_metadata(r, table)
                } else {
                    r matches Ok(ActionResult::ReadMultiple(vs)) && lists_entries(vs@, before, table)
                },
                RunOperation::DeleteTable => r == Ok::<ActionResult<Value>, ActionError>(
                    ActionResult::Delete(before.contains_key(table)),
                ) && after == (if before.contains_key(table) {
                    before.remove(table)
                } else {
                    before
                }),
            }
        },
    }
}

/// Reading an entry back after an action created it gives the created value, when the table
/// existed and the entry did not.
pub proof fn lemma_read_after_create_action(
    create: ActionView<Value>,
    read: ActionView<Value>,
    metadata: Value,
    start: Map<Seq<char>, Map<Seq<char>, Value>>,
    created: Result<ActionResult<Value>, ActionError>,
    middle: Map<Seq<char>, Map<Seq<char>, Value>>,
    read_back: Result<ActionResult<Value>, ActionError>,
    end: Map<Seq<char>, Map<Seq<char>, Value>>,
)
    requires
        ran(RunOperation::CreateEntry, create, metadata, start, created, middle),
        ran(RunOperation::ReadEntry, read, metadata, middle, read_back, end),
        ActionRun::validation_problem(RunOperation::CreateEntry, create) is None,
        read.table == create.table,
        read.key == create.key,
        start.contains_key(create.table->0),
        stored_value(start, create.table->0, create.key->0) is None,
    ensures
        created == Ok::<ActionResult<Value>, ActionError>(ActionResult::Create),
        read_back == Ok::<ActionResult<Value>, ActionError>(
            ActionResult::ReadSingle(Some(create.data->0)),
        ),
        end == middle,
{
}

/// Creating an entry that exists changes nothing: the first value stays.
pub proof fn lemma_create_action_keeps_existing(
    create: ActionView<Value>,
    metadata: Value,
    start: Map<Seq<char>, Map<Seq<char>, Value>>,
    created: Result<ActionResult<Value>, ActionError>,
    end: Map<Seq<char>, Map<Seq<char>, Value>>,
)
    requires
        ran(RunOperation::CreateEntry, create, metadata, start, created, end),
        ActionRun::validation_problem(RunOperation::CreateEntry, create) is None,
        stored_value(start, create.table->0, create.key->0) is Some,
    ensures
        end == start,
{
}

/// After an action deletes an entry, reading it gives nothing, and the delete reported
/// whether the entry was there.
pub proof fn lemma_read_after_delete_action(
    delete: ActionView<Value>,
    read: ActionView<Value>,
    metadata: Value,
    start: Map<Seq<char>, Map<Seq<char>, Value>>,
    deleted: Result<ActionResult<Value>, ActionError>,
    middle: Map<Seq<char>, Map<Seq<char>, Value>>,
    read_back: Result<ActionResult<Value>, ActionError>,
    end: Map<Seq<char>, Map<Seq<char>, Value>>,
)
    requires
        ran(RunOperation::DeleteEntry, delete, metadata, start, deleted, middle),
        ran(RunOperation::ReadEntry, read, metadata, middle, read_back, end),
        ActionRun::validation_problem(RunOperation::DeleteEntry, delete) is None,
        read.table == delete.table,
        read.key == delete.key,
    ensures
        deleted == Ok::<ActionResult<Value>, ActionError>(
            ActionResult::Delete(stored_value(start, delete.table->0, delete.key->0) is Some),
        ),
        read_back == Ok::<ActionResult<Value>, ActionError>(ActionResult::ReadSingle(None)),
{
}

/// After an action deletes a table, reading the table fails: the table has no metadata left.
pub proof fn lemma_read_after_delete_table_action(
    delete: ActionView<Value>,
    read: ActionView<Value>,
    metadata: Value,
    start: Map<Seq<char>, Map<Seq<char>, Value>>,
    deleted: Result<ActionResult<Value>, ActionError>,
    middle: Map<Seq<char>, Map<Seq<char>, Value>>,
    read_back: Result<ActionResult<Value>, ActionError>,
    end: Map<Seq<char>, Map<Seq<char>, Value>>,
)
    requires
        ran(RunOperation::DeleteTable, delete, metadata, start, deleted, middle),
        ran(RunOperation::ReadTable, read, metadata, middle, read_back, end),
        ActionRun::validation_problem(RunOperation::DeleteTable, delete) is None,
        read.table == delete.table,
    ensures
        deleted == Ok::<ActionResult<Value>, ActionError>(
            ActionResult::Delete(start.contains_key(delete.table->0)),
        ),
        missing_metadata(read_back, delete.table->0),
        end == middle,
{
}

/// An action that names the metadata key as its table fails validation and leaves the
/// tables as they were.
pub proof fn lemma_metadata_table_refused(
    op: RunOperation,
    action: ActionView<Value>,
    metadata: Value,
    start: Map<Seq<char>, Map<Seq<char>, Value>>,
    r: Result<ActionResult<Value>, ActionError>,
    end: Map<Seq<char>, Map<Seq<char>, Value>>,
)
    requires
        ran(op, action, metadata, start, r, end),
        action.table == Some(metadata_key()),
    ensures
        r is Err,
        end == start,
{
}

/// Through direct access too, reading an entry back after creating it gives the created value,
/// when the table existed and the entry did not; a second create keeps the first value.
pub proof fn lemma_access_read_after_create(
    table: Seq<char>,
    key: Seq<char>,
    entry: Value,
    other: Value,
    metadata: Value,
    start: Map<Seq<char>, Map<Seq<char>, Value>>,
    created: Result<ActionResult<Value>, AccessorError>,
    middle: Map<Seq<char>, Map<Seq<char>, Value>>,
    again: Result<ActionResult<Value>, AccessorError>,
    later: Map<Seq<char>, Map<Seq<char>, Value>>,
    read_back: Result<ActionResult<Value>, AccessorError>,
    end: Map<Seq<char>, Map<Seq<char>, Value>>,
)
    requires
        accessed(RunOperation::CreateEntry, table, key, entry, metadata, start, created, middle),
        accessed(RunOperation::CreateEntry, table, key, other, metadata, middle, again, later),
        accessed(RunOperation::ReadEntry, table, key, other, metadata, later, read_back, end),
        table != metadata_key(),
        key != metadata_key(),
        start.contains_key(table),
        stored_value(start, table, key) is None,
    ensures
        later == middle,
        read_back == Ok::<ActionResult<Value>, AccessorError>(ActionResult::ReadSingle(Some(entry))),
{
}

/// The values read for every key of a table but the metadata key are the table's entries
/// other than its metadata.
proof fn lemma_listed_entries(
    values: Seq<Value>,
    tables: Map<Seq<char>, Map<Seq<char>, Value>>,
    table: Seq<char>,
    keys: Seq<Seq<char>>,
)
    requires
        lists_keys(keys, tables, table),
        lists_values(values, tables, table, crate::action::without_metadata(keys)),
    ensures
        tables.contains_key(table) ==> lists_entries(values, tables, table),
{
    if tables.contains_key(table) {
        let wanted = crate::action::without_metadata(keys);
        let found = choose|found: Seq<Seq<char>>| #[trigger]
            selected_from(found, tables[table], wanted) && values == found.map_values(
                |k: Seq<char>| tables[table][k],
            );
        let pred = |x: Seq<char>| x != metadata_key();
        assert(wanted == keys.filter(pred));
        assert forall|k: Seq<char>| wanted.contains(k) <==> (keys.contains(k) && k
            != metadata_key()) by {
            if wanted.contains(k) {
                keys.lemma_filter_contains_rev(pred, k);
                let i = choose|i: int| 0 <= i < wanted.len() && wanted[i] == k;
                keys.lemma_filter_pred(pred, i);
            }
            if keys.contains(k) && k != metadata_key() {
                let i = choose|i: int| 0 <= i < keys.len() && keys[i] == k;
                keys.lemma_filter_contains(pred, i);
            }
        }
        assert(lists_entry_keys(found, tables[table]));
    }
}

/// What an access to the memory backend gives, and the tables it leaves: `entry` is the entry
/// that a create or an update writes, and `metadata` the metadata of a new table.
pub open spec fn accessed(
    op: RunOperation,
    table: Seq<char>,
    key: Seq<char>,
    entry: Value,
    metadata: Value,
    before: Map<Seq<char>, Map<Seq<char>, Value>>,
    r: Result<ActionResult<Value>, AccessorError>,
    after: Map<Seq<char>, Map<Seq<char>, Value>>,
) -> bool {
    if table == metadata_key() || (AccessRun::on_entry(op) && key == metadata_key()) {
        (r matches Err(e) && e.spec_source() is None && e.spec_kind() == (
        AccessorErrorType::Metadata { type_and_table: None })) && after == before
    } else {
        match op {
            RunOperation::CreateEntry => r == Ok::<ActionResult<Value>, AccessorError>(
                ActionResult::Create,
            ) && after == after_ensure(before, table, key, entry),
            RunOperation::ReadEntry => r == Ok::<ActionResult<Value>, AccessorError>(
                ActionResult::ReadSingle(stored_value(before, table, key)),
            ) && after == before,
            RunOperation::UpdateEntry => r == Ok::<ActionResult<Value>, AccessorError>(
                ActionResult::Update,
            ) && after == after_create(before, table, key, entry),
            RunOperation::DeleteEntry => r == Ok::<ActionResult<Value>, AccessorError>(
                ActionResult::Delete(stored_value(before, table, key) is Some),
            ) && after == after_delete(before, table, key),
            RunOperation::CreateTable => r == Ok::<ActionResult<Value>, AccessorError>(
                ActionResult::Create,
            ) && after == after_ensure(
                before.insert(table, empty_table()),
                table,
                metadata_key(),
                metadata,
            ),
            RunOperation::ReadTable => after == before && if stored_value(
                before,
                table,
                metadata_key(),
            ) is None {
                r matches Err(e) && e.spec_source() is None && (e.spec_kind() matches AccessorErrorType::Metadata {
                    type_and_table: Some((t, name)),
                } && t@ == "Value"@ && name@ == table)
            } else {
                r matches Ok(ActionResult::ReadMultiple(vs)) && lists_entries(vs@, before, table)
            },
            RunOperation::DeleteTable => r == Ok::<ActionResult<Value>, AccessorError>(
                ActionResult::Delete(before.contains_key(table)),
            ) && after == before.remove(table),
        }
    }
}

/// The string slices of some strings.
fn as_strs(keys: &Vec<String>) -> (r: Vec<&str>)
    ensures
        str_views(r@) == string_views(keys@),
{
    let mut r: Vec<&str> = Vec::new();
    let mut i: usize = 0;
    while i < keys.len()
        invariant
            i <= keys@.len(),
            r@.len() == i,
            forall|j: int| 0 <= j < i ==> #[trigger] r@[j]@ == keys@[j]@,
        decreases keys@.len() - i,
    {
        r.push(keys[i].as_str());
        i += 1;
    }
    assert(str_views(r@) =~= string_views(keys@));
    r
}

impl MemoryBackend {
    /// Runs an action over `Value`s to completion against this backend: it is validated, the
    /// table's metadata is checked, and its calls are made and answered in turn. `metadata` is
    /// the value that the metadata of a new table gets.
    #[verifier::rlimit(50)]
    pub fn run_action<'a, C: CrudOperation, T: OperationTarget>(
        &mut self,
        action: &Action<'a, Value, C, T>,
        metadata: &Value,
    ) -> (r: Result<ActionResult<Value>, ActionError>)
        requires
            spec_run_operation(C::spec_kind(), T::spec_target()) is Some,
        ensures
            ran(
                spec_run_operation(C::spec_kind(), T::spec_target())->0,
                action@,
                *metadata,
                old(self)@,
                r,
                final(self)@,
            ),
    {
        let data: &Value = match action.data() {
            Some(d) => d,
            None => metadata,
        };
        let ghost before = self@;
        let ghost mut listed: Seq<Seq<char>> = Seq::empty();
        let (mut run, step0) = action.start_run::<Value>("Value");
        let step1 = match step0 {
            RunStep::Finish(r) => return r,
            RunStep::Request(request) => {
                let reply = self.serve(request, data, metadata);
                run.resume(reply)
            },
        };
        let step2 = match step1 {
            RunStep::Finish(r) => return r,
            RunStep::Request(request) => {
                let reply = self.serve(request, data, metadata);
                proof {
                    if reply is Keys {
                        listed = string_views(reply->Keys_0@);
                    }
                }
                run.resume(reply)
            },
        };
        let step3 = match step2 {
            RunStep::Finish(r) => return r,
            RunStep::Request(request) => {
                let reply = self.serve(request, data, metadata);
                run.resume(reply)
            },
        };
        match step3 {
            RunStep::Finish(r) => {
                proof {
                    if run.spec_op() == RunOperation::ReadTable && r is Ok && r->Ok_0 is ReadMultiple {
                        lemma_listed_entries(r->Ok_0->ReadMultiple_0@, before, action@.table->0, listed);
                    }
                }
                r
            },
            RunStep::Request(_) => vstd::pervasive::unreached(),
        }
    }

    /// Accesses the entries of this backend directly, as the chart's accessor does: `entry`
    /// is the entry that a create or an update writes, and `metadata` the value that the
    /// metadata of a new table gets.
    #[verifier::rlimit(50)]
    pub fn access(
        &mut self,
        op: RunOperation,
        table: &str,
        key: &str,
        entry: &Value,
        metadata: &Value,
    ) -> (r: Result<ActionResult<Value>, AccessorError>)
        ensures
            accessed(op, table@, key@, *entry, *metadata, old(self)@, r, final(self)@),
    {
        let ghost before = self@;
        let ghost mut listed: Seq<Seq<char>> = Seq::empty();
        let (mut run, step0) = AccessRun::start::<Value>(op, table, key, "Value");
        let step1 = match step0 {
            AccessStep::Finish(r) => return r,
            AccessStep::Request(request) => {
                let reply = self.serve(request, entry, metadata);
                run.resume(reply)
            },
        };
        let step2 = match step1 {
            AccessStep::Finish(r) => return r,
            AccessStep::Request(request) => {
                let reply = self.serve(request, entry, metadata);
                proof {
                    if reply is Keys {
                        listed = string_views(reply->Keys_0@);
                    }
                }
                run.resume(reply)
            },
        };
        let step3 = match step2 {
            AccessStep::Finish(r) => return r,
            AccessStep::Request(request) => {
                let reply = self.serve(request, entry, metadata);
                run.resume(reply)
            },
        };
        let step4 = match step3 {
            AccessStep::Finish(r) => {
                proof {
                    if op == RunOperation::ReadTable && r is Ok && r->Ok_0 is ReadMultiple {
                        lemma_listed_entries(r->Ok_0->ReadMultiple_0@, before, table@, listed);
                    }
                }
                return r;
            },
            AccessStep::Request(request) => {
                let reply = self.serve(request, entry, metadata);
                run.resume(reply)
            },
        };
        match step4 {
            AccessStep::Finish(r) => r,
            AccessStep::Request(_) => vstd::pervasive::unreached(),
        }
    }

    /// Answers one backend call: `data` is the entry that a write stores, and `metadata` the
    /// value that the metadata of a new table gets.
    pub fn serve(&mut self, request: BackendRequest, data: &Value, metadata: &Value) -> (reply:
        BackendReply<Value>)
        ensures
            served(request, *data, *metadata, old(self)@, reply, final(self)@),
    {
        match request {
            BackendRequest::Get { table, key } => BackendReply::Value(self.get(&table, &key)),
            BackendRequest::Has { table, key } => BackendReply::Flag(self.has(&table, &key)),
            BackendRequest::HasTable { table } => BackendReply::Flag(self.has_table(&table)),
            BackendRequest::Ensure { table, key } => {
                self.ensure(&table, &key, data.clone());
                BackendReply::Done
            },
            BackendRequest::Create { table, key } => {
                self.create(&table, &key, data.clone());
                BackendReply::Done
            },
            BackendRequest::Update { table, key } => {
                self.update(&table, &key, data.clone());
                BackendReply::Done
            },
            BackendRequest::Delete { table, key } => {
                self.delete(&table, &key);
                BackendReply::Done
            },
            BackendRequest::EnsureTable { table } => {
                self.ensure_table(&table);
                BackendReply::Done
            },
            BackendRequest::CreateTable { table } => {
                self.create_table(&table);
                BackendReply::Done
            },
            BackendRequest::EnsureMetadata { table } => {
                proof {
                    reveal_strlit("__metadata__");
                }
                assert(crate::util::METADATA_KEY@ =~= metadata_key());
                self.ensure(&table, crate::util::METADATA_KEY, metadata.clone());
                BackendReply::Done
            },
            BackendRequest::DeleteTable { table } => {
                self.delete_table(&table);
                BackendReply::Done
            },
            BackendRequest::GetKeys { table } => {
                let ks = self.get_keys(&table);
                proof {
                    assert forall|k: Seq<char>| self@.contains_key(table@) implies (
                    self@[table@].contains_key(k) <==> string_views(ks@).contains(k)) by {
                        if self@[table@].contains_key(k) {
                            let i = choose|i: int| 0 <= i < ks@.len() && ks@[i]@ == k;
                            assert(string_views(ks@)[i] == k);
                        }
                        if string_views(ks@).contains(k) {
                            let i = choose|i: int| 0 <= i < string_views(ks@).len() && string_views(ks@)[i] == k;
                            assert(ks@[i]@ == k);
                        }
                    }
                    assert forall|i: int, j: int| 0 <= i < j < string_views(ks@).len() implies string_views(ks@)[i]
                        != string_views(ks@)[j] by {
                        assert(ks@[i]@ != ks@[j]@);
                    }
                }
                BackendReply::Keys(ks)
            },
            BackendRequest::GetAll { table, keys } => {
                let refs = as_strs(&keys);
                let vs = self.get_all(&table, &refs);
                BackendReply::Values(vs)
            },
        }
    }
}

} // verus!
