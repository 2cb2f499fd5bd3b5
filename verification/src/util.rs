use vstd::prelude::*;

verus! {

/// The reserved key under which each table keeps the record of its entry type.
pub const METADATA_KEY: &'static str = "__metadata__";

/// The characters of [`METADATA_KEY`].
pub open spec fn metadata_key() -> Seq<char> {
    seq!['_', '_', 'm', 'e', 't', 'a', 'd', 'a', 't', 'a', '_', '_']
}

/// Compares two string slices character by character.
pub fn str_eq(a: &str, b: &str) -> (r: bool)
    ensures
        r == (a@ == b@),
{
    let la = a.unicode_len();
    let lb = b.unicode_len();
    if la != lb {
        return false;
    }
    let mut i: usize = 0;
    while i < la
        invariant
            la == a@.len(),
            lb == b@.len(),
            la == lb,
            i <= la,
            forall|j: int| 0 <= j < i ==> a@[j] == b@[j],
        decreases la - i,
    {
        if a.get_char(i) != b.get_char(i) {
            return false;
        }
        i = i + 1;
    }
    assert(a@ =~= b@);
    true
}

/// Whether `key` is the reserved metadata key.
pub fn is_metadata(key: &str) -> (r: bool)
    ensures
        r == (key@ == metadata_key()),
{
    let reserved = "__metadata__";
    proof {
        reveal_strlit("__metadata__");
    }
    assert(reserved@ =~= metadata_key());
    str_eq(key, reserved)
}

/// Takes the value out of a container that is known to hold one.
pub trait InnerUnwrap<T>: Sized {
    /// Whether the container holds a value.
    spec fn holds_value(&self) -> bool;

    /// The value the container holds.
    spec fn held_value(&self) -> T;

    /// The value held; the container must hold one.
    fn inner_unwrap(self) -> (r: T)
        requires
            self.holds_value(),
        ensures
            r == self.held_value(),
    ;
}

impl<T> InnerUnwrap<T> for Option<T> {
    open spec fn holds_value(&self) -> bool {
        self is Some
    }

    open spec fn held_value(&self) -> T {
        self->0
    }

    fn inner_unwrap(self) -> (r: T) {
        match self {
            Some(v) => v,
            None => vstd::pervasive::unreached(),
        }
    }
}

impl<T, E> InnerUnwrap<T> for Result<T, E> {
    open spec fn holds_value(&self) -> bool {
        self is Ok
    }

    open spec fn held_value(&self) -> T {
        self->Ok_0
    }

    fn inner_unwrap(self) -> (r: T) {
        match self {
            Ok(v) => v,
            Err(_) => vstd::pervasive::unreached(),
        }
    }
}

/// The index of the last `.` in `s`, or `-1` when there is none.
pub open spec fn last_dot(s: Seq<char>) -> int
    decreases s.len(),
{
    if s.len() == 0 {
        -1
    } else if s.last() == '.' {
        s.len() - 1
    } else {
        last_dot(s.drop_last())
    }
}

/// Bounds and meaning of [`last_dot`].
pub proof fn lemma_last_dot_bounds(s: Seq<char>)
    ensures
        -1 <= last_dot(s) < s.len(),
        last_dot(s) >= 0 ==> s[last_dot(s)] == '.',
        forall|j: int| last_dot(s) < j < s.len() ==> s[j] != '.',
    decreases s.len(),
{
    if s.len() > 0 && s.last() != '.' {
        let t = s.drop_last();
        lemma_last_dot_bounds(t);
        assert forall|j: int| last_dot(s) < j < s.len() implies s[j] != '.' by {
            if j < t.len() {
                assert(t[j] == s[j]);
            }
        }
    }
}

/// [`last_dot`] is the one index that holds a `.` with no `.` after it.
pub proof fn lemma_last_dot_is(s: Seq<char>, i: int)
    requires
        -1 <= i < s.len(),
        i >= 0 ==> s[i] == '.',
        forall|j: int| i < j < s.len() ==> s[j] != '.',
    ensures
        last_dot(s) == i,
    decreases s.len(),
{
    if s.len() > 0 && s.last() != '.' {
        lemma_last_dot_is(s.drop_last(), i);
    }
}

/// Finds the index of the last `.` in `s`, or `-1` when there is none.
pub fn find_last_dot(s: &str) -> (r: i64)
    requires
        s@.len() < i64::MAX,
    ensures
        r == last_dot(s@),
{
    let n = s.unicode_len();
    let mut found: i64 = -1;
    let mut i: usize = 0;
    while i < n
        invariant
            n == s@.len(),
            n < i64::MAX,
            i <= n,
            -1 <= found < i,
            found >= 0 ==> s@[found as int] == '.',
            forall|j: int| found < j < i ==> s@[j] != '.',
        decreases n - i,
    {
        if s.get_char(i) == '.' {
            found = i as i64;
        }
        i = i + 1;
    }
    proof {
        lemma_last_dot_is(s@, found as int);
    }
    found
}

} // verus!
