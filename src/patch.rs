//! Sparse patches: each field of an update is absent, present and null, or
//! present with a value.
use vstd::prelude::*;

verus! {

/// A requested change to one nullable field.
#[derive(Clone, Copy, Debug, PartialEq, Eq)]
pub enum Patch<T> {
    /// The field is not part of the update; the stored value stays.
    Absent,
    /// The field is present and null; the stored value is cleared.
    Null,
    /// The field is present with a value; it overwrites the stored one.
    Value(T),
}

/// The value a nullable field holds after `p` is applied to `current`.
pub open spec fn patched<T>(p: Patch<T>, current: Option<T>) -> Option<T> {
    match p {
        Patch::Absent => current,
        Patch::Null => None,
        Patch::Value(v) => Some(v),
    }
}

/// The value a non-nullable field holds after an optional replacement.
pub open spec fn replaced<T>(p: Option<T>, current: T) -> T {
    match p {
        Some(v) => v,
        None => current,
    }
}

/// The patch that a doubly optional field stands for: the outer layer says
/// whether the field is present, the inner one whether it is null.
pub open spec fn nested_patch<T>(o: Option<Option<T>>) -> Patch<T> {
    match o {
        None => Patch::Absent,
        Some(None) => Patch::Null,
        Some(Some(v)) => Patch::Value(v),
    }
}

impl<T> Patch<T> {
    /// Whether the field is left out of the update.
    pub open spec fn is_absent_spec(&self) -> bool {
        self is Absent
    }

    /// Whether the field is left out of the update.
    #[verifier::when_used_as_spec(is_absent_spec)]
    pub fn is_absent(&self) -> (r: bool)
        ensures
            r == self.is_absent_spec(),
    {
        match self {
            Patch::Absent => true,
            _ => false,
        }
    }

    /// Applies this change to the stored value of a nullable field.
    pub fn apply(self, current: Option<T>) -> (r: Option<T>)
        ensures
            r == patched(self, current),
    {
        match self {
            Patch::Absent => current,
            Patch::Null => None,
            Patch::Value(v) => Some(v),
        }
    }

    /// Reads a doubly optional field (absent / null / value) as a patch.
    pub fn from_nested(o: Option<Option<T>>) -> (r: Patch<T>)
        ensures
            r == nested_patch(o),
    {
        match o {
            None => Patch::Absent,
            Some(None) => Patch::Null,
            Some(Some(v)) => Patch::Value(v),
        }
    }
}

/// Applies an optional replacement to the stored value of a non-nullable
/// field.
pub fn replace<T>(p: Option<T>, current: T) -> (r: T)
    ensures
        r == replaced(p, current),
{
    match p {
        Some(v) => v,
        None => current,
    }
}

} // verus!
