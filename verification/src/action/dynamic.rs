use vstd::prelude::*;

use core::marker::PhantomData;

use super::{
    opt_str_view, opt_string_view, validation_outcome, metadata_problem, Action, ActionKind,
    ActionValidationError, ActionValidationErrorType, ActionView, CrudOperation, InnerAction,
    OperationTarget, TargetKind,
};
use crate::entry::{entry_key_text, is_entry_key_text, is_key_text, IndexEntry, Key};
use crate::util::{find_last_dot, is_metadata, last_dot, lemma_last_dot_bounds, lemma_last_dot_is};

verus! {

/// The `.`-separated sections of a text, first to last.
pub open spec fn split_dots(s: Seq<char>) -> Seq<Seq<char>>
    decreases s.len(),
{
    let i = last_dot(s);
    if i < 0 || i >= s.len() {
        seq![s]
    } else {
        split_dots(s.subrange(0, i)).push(s.subrange(i + 1, s.len() as int))
    }
}

/// What an action's text describes: its kind, its target and, when there is a third section,
/// its table; `None` when the text has fewer than two or more than three sections, or a section
/// does not name a kind or target.
pub open spec fn spec_parse_action(s: Seq<char>) -> Option<(ActionKind, TargetKind, Option<Seq<char>>)> {
    let sections = split_dots(s);
    if sections.len() == 2 || sections.len() == 3 {
        match (ActionKind::spec_from_name(sections[0]), TargetKind::spec_from_name(sections[1])) {
            (Some(k), Some(t)) => Some(
                (k, t, if sections.len() == 3 {
                    Some(sections[2])
                } else {
                    None
                }),
            ),
            _ => None,
        }
    } else {
        None
    }
}

/// The text of an action: its kind and target, and its table when there is one, joined by `.`.
pub open spec fn spec_action_text(
    kind: ActionKind,
    target: TargetKind,
    table: Option<Seq<char>>,
) -> Seq<char> {
    let base = kind.spec_name() + seq!['.'] + target.spec_name();
    match table {
        Some(t) => base + seq!['.'] + t,
        None => base,
    }
}

/// What a dynamic action holds.
pub struct DynamicView<S> {
    /// The key, if set.
    pub key: Option<Seq<char>>,
    /// The data, if set.
    pub data: Option<S>,
    /// The table, if set.
    pub table: Option<Seq<char>>,
    /// The kind of action.
    pub kind: ActionKind,
    /// The target of the action.
    pub target: TargetKind,
}

impl<S> DynamicView<S> {
    /// The same state seen as an action's state.
    pub open spec fn as_action(self) -> ActionView<S> {
        ActionView { table: self.table, key: self.key, data: self.data }
    }
}

/// A dynamic action for when certain parameters aren't known until runtime.
#[derive(Debug)]
pub struct DynamicAction<S> {
    pub(crate) key: Option<String>,
    pub(crate) data: Option<Box<S>>,
    pub(crate) table: Option<String>,
    pub(crate) kind: ActionKind,
    pub(crate) target: TargetKind,
}

impl<S> View for DynamicAction<S> {
    type V = DynamicView<S>;

    closed spec fn view(&self) -> DynamicView<S> {
        DynamicView {
            key: opt_string_view(self.key),
            data: match self.data {
                Some(d) => Some(*d),
                None => None,
            },
            table: opt_string_view(self.table),
            kind: self.kind,
            target: self.target,
        }
    }
}

impl<S> DynamicAction<S> {
    /// The action's table, key and data as the state of a static action.
    pub(crate) fn as_inner(&self) -> (r: InnerAction<'_, S>)
        ensures
            r@ == self@.as_action(),
    {
        InnerAction {
            data: match &self.data {
                Some(d) => Some(&**d),
                None => None,
            },
            key: match &self.key {
                Some(k) => Some(k.clone()),
                None => None,
            },
            table: match &self.table {
                Some(t) => Some(t.as_str()),
                None => None,
            },
        }
    }

    /// Creates a new action of the specified type and target.
    pub fn new(kind: ActionKind, target: TargetKind) -> (r: Self)
        ensures
            r@.key is None,
            r@.data is None,
            r@.table is None,
            r@.kind == kind,
            r@.target == target,
    {
        DynamicAction { key: None, data: None, table: None, kind, target }
    }

    /// Get a reference to the currently set key.
    pub fn key(&self) -> (r: Option<&str>)
        ensures
            opt_str_view(r) == self@.key,
    {
        match &self.key {
            Some(k) => Some(k.as_str()),
            None => None,
        }
    }

    /// Get a reference to the currently set table.
    pub fn table(&self) -> (r: Option<&str>)
        ensures
            opt_str_view(r) == self@.table,
    {
        match &self.table {
            Some(t) => Some(t.as_str()),
            None => None,
        }
    }

    /// Get the type of action.
    pub fn kind(&self) -> (r: ActionKind)
        ensures
            r == self@.kind,
    {
        self.kind
    }

    /// Get the current target of the action.
    pub fn target(&self) -> (r: TargetKind)
        ensures
            r == self@.target,
    {
        self.target
    }

    /// Get a reference to the currently set data.
    pub fn data(&self) -> (r: Option<&S>)
        ensures
            match r {
                Some(d) => self@.data == Some(*d),
                None => self@.data is None,
            },
    {
        match &self.data {
            Some(d) => Some(&**d),
            None => None,
        }
    }

    /// Sets the table for this action.
    pub fn set_table(&mut self, table: String) -> (r: &mut Self)
        ensures
            r@ == (DynamicView { table: Some(table@), ..old(self)@ }),
            *final(self) == *final(r),
    {
        self.table = Some(table);
        self
    }

    /// Sets the key for the action, as the key's [`Key::to_key`] text.
    pub fn set_key<K: Key + ?Sized>(&mut self, key: &K) -> (r: &mut Self)
        ensures
            r@ == (DynamicView { key: r@.key, ..old(self)@ }),
            r@.key matches Some(t) && is_key_text(key, t),
            *final(self) == *final(r),
    {
        self.set_key_string(key.to_key())
    }

    /// Sets the key text for the action.
    pub fn set_key_string(&mut self, key: String) -> (r: &mut Self)
        ensures
            r@ == (DynamicView { key: Some(key@), ..old(self)@ }),
            *final(self) == *final(r),
    {
        self.key = Some(key);
        self
    }

    /// Sets the data for the action.
    pub fn set_data(&mut self, data: S) -> (r: &mut Self)
        ensures
            r@ == (DynamicView { data: Some(data), ..old(self)@ }),
            *final(self) == *final(r),
    {
        self.data = Some(Box::new(data));
        self
    }

    /// Sets the type of action we're performing.
    pub fn set_kind(&mut self, kind: ActionKind) -> (r: &mut Self)
        ensures
            r@ == (DynamicView { kind, ..old(self)@ }),
            *final(self) == *final(r),
    {
        self.kind = kind;
        self
    }

    /// Sets the target of the action we're performing.
    pub fn set_target(&mut self, target: TargetKind) -> (r: &mut Self)
        ensures
            r@ == (DynamicView { target, ..old(self)@ }),
            *final(self) == *final(r),
    {
        self.target = target;
        self
    }

    /// Validates that the key is set and is not the metadata key.
    pub fn validate_key(&self) -> (r: Result<(), ActionValidationError>)
        ensures
            validation_outcome(r, self@.as_action().key_problem()),
    {
        match &self.key {
            None => Err(ActionValidationError::new(ActionValidationErrorType::Key)),
            Some(k) => self.validate_metadata(Some(k.as_str())),
        }
    }

    /// Validates that the table is set and is not the metadata key.
    pub fn validate_table(&self) -> (r: Result<(), ActionValidationError>)
        ensures
            validation_outcome(r, self@.as_action().table_problem()),
    {
        match &self.table {
            None => Err(ActionValidationError::new(ActionValidationErrorType::Table)),
            Some(t) => self.validate_metadata(Some(t.as_str())),
        }
    }

    /// Validates that the data is set.
    pub fn validate_data(&self) -> (r: Result<(), ActionValidationError>)
        ensures
            validation_outcome(r, self@.as_action().data_problem()),
    {
        if self.data.is_none() {
            return Err(ActionValidationError::new(ActionValidationErrorType::Data));
        }
        Ok(())
    }

    /// Validates that both the key and data have been set, the key first.
    pub fn validate_entry(&self) -> (r: Result<(), ActionValidationError>)
        ensures
            validation_outcome(r, self@.as_action().entry_problem()),
    {
        self.validate_key()?;
        self.validate_data()
    }

    /// Validates that the key is not the private metadata key.
    pub fn validate_metadata(&self, key: Option<&str>) -> (r: Result<(), ActionValidationError>)
        ensures
            validation_outcome(r, metadata_problem(opt_str_view(key))),
    {
        match key {
            Some(k) => if is_metadata(k) {
                Err(ActionValidationError::new(ActionValidationErrorType::Metadata))
            } else {
                Ok(())
            },
            None => Ok(()),
        }
    }

    /// A static action over the same table, key and data, when its operation and target are
    /// those of this dynamic action; a conversion error otherwise.
    pub fn as_static<C: CrudOperation, T: OperationTarget>(&self) -> (r: Result<
        Action<'_, S, C, T>,
        ActionValidationError,
    >)
        ensures
            (C::spec_kind() == self@.kind && T::spec_target() == self@.target) ==> (r matches Ok(
                a,
            ) && a@ == self@.as_action()),
            !(C::spec_kind() == self@.kind && T::spec_target() == self@.target) ==> (r matches Err(
                e,
            ) && e.is_plain(ActionValidationErrorType::Conversion)),
    {
        if C::kind() != self.kind() || T::target() != self.target() {
            return Err(ActionValidationError::new(ActionValidationErrorType::Conversion));
        }
        let inner = InnerAction {
            data: match &self.data {
                Some(d) => Some(&**d),
                None => None,
            },
            key: match &self.key {
                Some(k) => Some(k.clone()),
                None => None,
            },
            table: match &self.table {
                Some(t) => Some(t.as_str()),
                None => None,
            },
        };
        Ok(Action::from_inner(inner))
    }

    /// The action as text: `Kind.Target`, followed by `.table` when a table is set.
    pub fn to_string(&self) -> (s: String)
        ensures
            s@ == spec_action_text(self@.kind, self@.target, self@.table),
    {
        let mut s = self.kind.to_string();
        let dot = ".";
        proof {
            reveal_strlit(".");
        }
        assert(dot@ =~= seq!['.']);
        s.append(dot);
        let t = self.target.to_string();
        s.append(t.as_str());
        match &self.table {
            Some(table) => {
                s.append(dot);
                s.append(table.as_str());
            },
            None => {},
        }
        s
    }

    /// Reads an action from its text: two or three `.`-separated sections naming the kind,
    /// the target and, optionally, the table. Anything else is a parse error.
    pub fn parse(s: &str) -> (r: Result<Self, ActionValidationError>)
        requires
            s@.len() < i64::MAX,
        ensures
            match spec_parse_action(s@) {
                Some((k, t, table)) => r matches Ok(a) && a@.kind == k && a@.target == t
                    && a@.table == table && a@.key is None && a@.data is None,
                None => r matches Err(e) && e.is_plain(ActionValidationErrorType::Parse),
            },
    {
        let n = s.unicode_len();
        let i1 = find_last_dot(s);
        proof {
            lemma_last_dot_bounds(s@);
        }
        if i1 < 0 {
            proof {
                assert(split_dots(s@).len() == 1);
            }
            return Err(ActionValidationError::new(ActionValidationErrorType::Parse));
        }
        let left = s.substring_char(0, i1 as usize);
        let last = s.substring_char((i1 + 1) as usize, n);
        let i2 = find_last_dot(left);
        proof {
            lemma_last_dot_bounds(left@);
        }
        let ghost left_sections = split_dots(left@);
        assert(split_dots(s@) == left_sections.push(last@));
        if i2 < 0 {
            assert(left_sections =~= seq![left@]);
            let kind = ActionKind::from_name(left)?;
            let target = TargetKind::from_name(last)?;
            return Ok(DynamicAction { key: None, data: None, table: None, kind, target });
        }
        let first = left.substring_char(0, i2 as usize);
        let middle = left.substring_char((i2 + 1) as usize, i1 as usize);
        assert(middle@ =~= left@.subrange(i2 + 1, left@.len() as int));
        let i3 = find_last_dot(first);
        assert(left_sections == split_dots(first@).push(middle@));
        if i3 >= 0 {
            proof {
                lemma_split_dots_len(first@);
            }
            return Err(ActionValidationError::new(ActionValidationErrorType::Parse));
        }
        assert(split_dots(first@) =~= seq![first@]);
        let kind = ActionKind::from_name(first)?;
        let target = TargetKind::from_name(middle)?;
        Ok(DynamicAction { key: None, data: None, table: Some(last.to_owned()), kind, target })
    }
}

/// A text with a `.` has at least two sections.
proof fn lemma_split_dots_len(s: Seq<char>)
    requires
        last_dot(s) >= 0,
    ensures
        split_dots(s).len() >= 2,
    decreases s.len(),
{
    lemma_last_dot_bounds(s);
    lemma_split_dots_nonempty(s.subrange(0, last_dot(s)));
}

/// Every text has at least one section.
proof fn lemma_split_dots_nonempty(s: Seq<char>)
    ensures
        split_dots(s).len() >= 1,
    decreases s.len(),
{
    lemma_last_dot_bounds(s);
    if last_dot(s) >= 0 {
        lemma_split_dots_nonempty(s.subrange(0, last_dot(s)));
    }
}

/// A text without a `.` is a single section.
proof fn lemma_split_no_dot(y: Seq<char>)
    requires
        !y.contains('.'),
    ensures
        split_dots(y) == seq![y],
{
    lemma_last_dot_is(y, -1);
}

/// Appending `.` and a text without a `.` adds that text as one more section.
proof fn lemma_split_append(x: Seq<char>, y: Seq<char>)
    requires
        !y.contains('.'),
    ensures
        split_dots(x + seq!['.'] + y) == split_dots(x).push(y),
{
    let s = x + seq!['.'] + y;
    assert forall|j: int| x.len() < j < s.len() implies s[j] != '.' by {
        assert(s[j] == y[j - x.len() - 1]);
    }
    lemma_last_dot_is(s, x.len() as int);
    assert(s.subrange(0, x.len() as int) =~= x);
    assert(s.subrange(x.len() as int + 1, s.len() as int) =~= y);
}

proof fn lemma_kind_name_no_dot(k: ActionKind)
    ensures
        !k.spec_name().contains('.'),
{
    let n = k.spec_name();
    assert forall|i: int| 0 <= i < n.len() implies n[i] != '.' by {}
}

proof fn lemma_target_name_no_dot(t: TargetKind)
    ensures
        !t.spec_name().contains('.'),
{
    let n = t.spec_name();
    assert forall|i: int| 0 <= i < n.len() implies n[i] != '.' by {}
}

/// Reading the text that an action is written as gives back its kind, target and table, when
/// the table holds no `.`.
pub proof fn lemma_action_text_round_trip(
    kind: ActionKind,
    target: TargetKind,
    table: Option<Seq<char>>,
)
    requires
        table matches Some(t) ==> !t.contains('.'),
    ensures
        spec_parse_action(spec_action_text(kind, target, table)) == Some((kind, target, table)),
{
    lemma_kind_name_no_dot(kind);
    lemma_target_name_no_dot(target);
    lemma_split_no_dot(kind.spec_name());
    lemma_split_append(kind.spec_name(), target.spec_name());
    let base = kind.spec_name() + seq!['.'] + target.spec_name();
    super::lemma_kind_name_round_trip(kind);
    super::lemma_target_name_round_trip(target);
    match table {
        Some(t) => {
            lemma_split_append(base, t);
        },
        None => {},
    }
}

impl<S: IndexEntry> DynamicAction<S> {
    /// Sets both the key, taken from the entry, and the entry as the data.
    pub fn set_entry(&mut self, entry: S) -> (r: &mut Self)
        ensures
            r@ == (DynamicView { key: r@.key, data: Some(entry), ..old(self)@ }),
            r@.key matches Some(t) && is_entry_key_text(&entry, t),
            *final(self) == *final(r),
    {
        self.key = Some(entry_key_text(&entry));
        self.data = Some(Box::new(entry));
        self
    }
}

impl<S> Clone for DynamicAction<S> where S: Clone {
    /// The same action, its data cloned.
    fn clone(&self) -> (r: Self)
        ensures
            r@.key == self@.key,
            r@.table == self@.table,
            r@.kind == self@.kind,
            r@.target == self@.target,
            r@.data is Some <==> self@.data is Some,
            r@.data matches Some(d) ==> vstd::pervasive::cloned(self@.data->0, d),
    {
        DynamicAction {
            key: match &self.key {
                Some(k) => Some(k.clone()),
                None => None,
            },
            data: match &self.data {
                Some(d) => Some(Box::new((**d).clone())),
                None => None,
            },
            table: match &self.table {
                Some(t) => Some(t.clone()),
                None => None,
            },
            kind: self.kind,
            target: self.target,
        }
    }
}

impl<S> std::str::FromStr for DynamicAction<S> {
    type Err = ActionValidationError;

    /// Reads an action as [`DynamicAction::parse`] does; a text whose length reaches
    /// `i64::MAX` characters is refused as a parse error.
    fn from_str(s: &str) -> (r: Result<Self, Self::Err>)
        ensures
            s@.len() < i64::MAX ==> match spec_parse_action(s@) {
                Some((k, t, table)) => r matches Ok(a) && a@.kind == k && a@.target == t
                    && a@.table == table && a@.key is None && a@.data is None,
                None => r matches Err(e) && e.is_plain(ActionValidationErrorType::Parse),
            },
            s@.len() >= i64::MAX ==> (r matches Err(e) && e.is_plain(ActionValidationErrorType::Parse)),
    {
        if s.unicode_len() as u64 >= 0x7fff_ffff_ffff_ffffu64 {
            return Err(ActionValidationError::new(ActionValidationErrorType::Parse));
        }
        Self::parse(s)
    }
}


/// The fields of a [`DynamicAction`] in its serialized form.
#[derive(Debug, Clone, Copy, PartialEq, Eq, Structural)]
pub enum ActionField {
    /// `type`, the kind of the action.
    Type,
    /// `target`, the target of the action.
    Target,
    /// `table`, the table of the action, if any.
    Table,
}

impl ActionField {
    /// The field's name in the serialized form.
    pub open spec fn spec_name(self) -> Seq<char> {
        match self {
            ActionField::Type => "type"@,
            ActionField::Target => "target"@,
            ActionField::Table => "table"@,
        }
    }

    /// The field's position in the serialized sequence form.
    pub open spec fn spec_index(self) -> nat {
        match self {
            ActionField::Type => 0,
            ActionField::Target => 1,
            ActionField::Table => 2,
        }
    }

    /// The field's name in the serialized form.
    pub fn name(self) -> (r: &'static str)
        ensures
            r@ == self.spec_name(),
    {
        proof {
            reveal_strlit("type");
            reveal_strlit("target");
            reveal_strlit("table");
        }
        match self {
            ActionField::Type => "type",
            ActionField::Target => "target",
            ActionField::Table => "table",
        }
    }

    /// The field's position in the serialized sequence form.
    pub fn index(self) -> (r: usize)
        ensures
            r == self.spec_index(),
    {
        match self {
            ActionField::Type => 0,
            ActionField::Target => 1,
            ActionField::Table => 2,
        }
    }

    /// The field of the given name; `None` for a name that is not a field.
    pub fn from_name(name: &str) -> (r: Option<ActionField>)
        ensures
            r matches Some(f) ==> f.spec_name() == name@,
            r is None ==> forall|f: ActionField| f.spec_name() != name@,
    {
        proof {
            reveal_strlit("type");
            reveal_strlit("target");
            reveal_strlit("table");
        }
        if crate::util::str_eq(name, "type") {
            Some(ActionField::Type)
        } else if crate::util::str_eq(name, "target") {
            Some(ActionField::Target)
        } else if crate::util::str_eq(name, "table") {
            Some(ActionField::Table)
        } else {
            proof {
                assert forall|f: ActionField| f.spec_name() != name@ by {
                    match f {
                        ActionField::Type => {},
                        ActionField::Target => {},
                        ActionField::Table => {},
                    }
                }
            }
            None
        }
    }
}

/// Why the fields read for a [`DynamicAction`] do not make one.
#[derive(Debug, Clone, Copy, PartialEq, Eq, Structural)]
pub enum FieldError {
    /// The field came twice.
    Duplicate(ActionField),
    /// The field never came.
    Missing(ActionField),
}

/// The fields of a [`DynamicAction`] read so far from its serialized form.
pub struct ActionFields {
    kind: Option<ActionKind>,
    target: Option<TargetKind>,
    table: Option<Option<String>>,
}

/// What the fields read so far hold.
pub struct ActionFieldsView {
    /// The kind, once read.
    pub kind: Option<ActionKind>,
    /// The target, once read.
    pub target: Option<TargetKind>,
    /// The table, once read.
    pub table: Option<Option<Seq<char>>>,
}

impl View for ActionFields {
    type V = ActionFieldsView;

    closed spec fn view(&self) -> ActionFieldsView {
        ActionFieldsView {
            kind: self.kind,
            target: self.target,
            table: match self.table {
                Some(t) => Some(opt_string_view(t)),
                None => None,
            },
        }
    }
}

impl ActionFields {
    /// No field read yet.
    pub fn new() -> (r: Self)
        ensures
            r@.kind is None,
            r@.target is None,
            r@.table is None,
    {
        ActionFields { kind: None, target: None, table: None }
    }

    /// Whether the field has been read already.
    pub fn has(&self, field: ActionField) -> (r: bool)
        ensures
            r == match field {
                ActionField::Type => self@.kind is Some,
                ActionField::Target => self@.target is Some,
                ActionField::Table => self@.table is Some,
            },
    {
        match field {
            ActionField::Type => self.kind.is_some(),
            ActionField::Target => self.target.is_some(),
            ActionField::Table => self.table.is_some(),
        }
    }

    /// Records the kind; a second kind is a duplicate field and changes nothing.
    pub fn set_kind(&mut self, kind: ActionKind) -> (r: Result<(), FieldError>)
        ensures
            old(self)@.kind is Some ==> r == Err::<(), FieldError>(FieldError::Duplicate(ActionField::Type))
                && final(self)@ == old(self)@,
            old(self)@.kind is None ==> r is Ok && final(self)@ == (ActionFieldsView {
                kind: Some(kind),
                ..old(self)@
            }),
    {
        if self.kind.is_some() {
            return Err(FieldError::Duplicate(ActionField::Type));
        }
        self.kind = Some(kind);
        Ok(())
    }

    /// Records the target; a second target is a duplicate field and changes nothing.
    pub fn set_target(&mut self, target: TargetKind) -> (r: Result<(), FieldError>)
        ensures
            old(self)@.target is Some ==> r == Err::<(), FieldError>(FieldError::Duplicate(ActionField::Target))
                && final(self)@ == old(self)@,
            old(self)@.target is None ==> r is Ok && final(self)@ == (ActionFieldsView {
                target: Some(target),
                ..old(self)@
            }),
    {
        if self.target.is_some() {
            return Err(FieldError::Duplicate(ActionField::Target));
        }
        self.target = Some(target);
        Ok(())
    }

    /// Records the table; a second table is a duplicate field and changes nothing.
    pub fn set_table(&mut self, table: Option<String>) -> (r: Result<(), FieldError>)
        ensures
            old(self)@.table is Some ==> r == Err::<(), FieldError>(FieldError::Duplicate(ActionField::Table))
                && final(self)@ == old(self)@,
            old(self)@.table is None ==> r is Ok && final(self)@ == (ActionFieldsView {
                table: Some(opt_string_view(table)),
                ..old(self)@
            }),
    {
        if self.table.is_some() {
            return Err(FieldError::Duplicate(ActionField::Table));
        }
        self.table = Some(table);
        Ok(())
    }

    /// The action that the fields make, with no key and no data; the first missing field, in
    /// the order type, target, table, is an error.
    pub fn finish<S>(self) -> (r: Result<DynamicAction<S>, FieldError>)
        ensures
            self@.kind is None ==> r == Err::<DynamicAction<S>, FieldError>(FieldError::Missing(ActionField::Type)),
            self@.kind is Some && self@.target is None ==> r == Err::<DynamicAction<S>, FieldError>(
                FieldError::Missing(ActionField::Target),
            ),
            self@.kind is Some && self@.target is Some && self@.table is None ==> r == Err::<
                DynamicAction<S>,
                FieldError,
            >(FieldError::Missing(ActionField::Table)),
            r matches Ok(a) ==> self@.kind == Some(a@.kind) && self@.target == Some(a@.target)
                && self@.table == Some(a@.table) && a@.key is None && a@.data is None,
            (self@.kind is Some && self@.target is Some && self@.table is Some) ==> r is Ok,
    {
        let kind = match self.kind {
            Some(k) => k,
            None => return Err(FieldError::Missing(ActionField::Type)),
        };
        let target = match self.target {
            Some(t) => t,
            None => return Err(FieldError::Missing(ActionField::Target)),
        };
        let table = match self.table {
            Some(t) => t,
            None => return Err(FieldError::Missing(ActionField::Table)),
        };
        Ok(DynamicAction { key: None, data: None, table, kind, target })
    }
}

} // verus!
