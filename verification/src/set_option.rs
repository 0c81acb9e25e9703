use vstd::prelude::*;
use vstd::std_specs::convert::FromSpec;

verus! {

/// Errors raised by the model types.
#[derive(Debug, Clone, Copy, PartialEq, Eq, Structural)]
pub enum TinyOrmError {
    SetOptionNotSet,
}

/// `SetOption` behaves like `Option` with two variants. It tells a field that
/// was deliberately left out of a write (`NotSet`) apart from a field whose
/// value is itself optional. A `NotSet` field is skipped by the generated
/// `create()` and `update()` methods.
#[derive(Debug, Clone, PartialEq, Eq, PartialOrd, Ord, Hash)]
pub enum SetOption<T> {
    SetTo(T),
    NotSet,
}

impl<T> SetOption<T> {
    /// The value as an `Option`: `Some` exactly for `Set`.
    pub open spec fn spec_inner(self) -> Option<T> {
        match self {
            SetOption::SetTo(v) => Some(v),
            SetOption::NotSet => None,
        }
    }

    /// The inner value as an `Option`.
    pub fn inner(self) -> (res: Option<T>)
        ensures
            res == self.spec_inner(),
    {
        match self {
            SetOption::NotSet => None,
            SetOption::SetTo(value) => Some(value),
        }
    }

    /// The inner value, or `SetOptionNotSet` for `NotSet`.
    pub fn value(self) -> (res: Result<T, TinyOrmError>)
        ensures
            match self {
                SetOption::SetTo(v) => res == Ok::<T, TinyOrmError>(v),
                SetOption::NotSet => res == Err::<T, TinyOrmError>(TinyOrmError::SetOptionNotSet),
            },
    {
        match self {
            SetOption::NotSet => Err(TinyOrmError::SetOptionNotSet),
            SetOption::SetTo(value) => Ok(value),
        }
    }

    /// A reference to the inner value, or `SetOptionNotSet` for `NotSet`.
    pub fn value_ref(&self) -> (res: Result<&T, TinyOrmError>)
        ensures
            match *self {
                SetOption::SetTo(v) => res == Ok::<&T, TinyOrmError>(&v),
                SetOption::NotSet => res == Err::<&T, TinyOrmError>(TinyOrmError::SetOptionNotSet),
            },
    {
        match self {
            SetOption::NotSet => Err(TinyOrmError::SetOptionNotSet),
            SetOption::SetTo(value) => Ok(value),
        }
    }

    /// Whether the variant is `Set`.
    pub fn is_set(&self) -> (res: bool)
        ensures
            res == (*self is SetTo),
    {
        match self {
            SetOption::SetTo(_) => true,
            SetOption::NotSet => false,
        }
    }

    /// Whether the variant is `NotSet`.
    pub fn is_not_set(&self) -> (res: bool)
        ensures
            res == (*self is NotSet),
    {
        match self {
            SetOption::SetTo(_) => false,
            SetOption::NotSet => true,
        }
    }

    /// Takes the inner value out, leaving `NotSet` behind.
    pub fn take(&mut self) -> (res: Option<T>)
        ensures
            res == old(self).spec_inner(),
            *final(self) == SetOption::<T>::NotSet,
    {
        let mut value = SetOption::NotSet;
        std::mem::swap(self, &mut value);
        match value {
            SetOption::NotSet => None,
            SetOption::SetTo(value) => Some(value),
        }
    }
}

impl<T> Default for SetOption<T> {
    /// `NotSet` is the default.
    fn default() -> (res: Self)
        ensures
            res == SetOption::<T>::NotSet,
    {
        SetOption::NotSet
    }
}

impl<T> From<T> for SetOption<T> {
    /// A value is a set `SetOption`.
    fn from(value: T) -> (res: Self) {
        SetOption::SetTo(value)
    }
}

impl<T> vstd::std_specs::convert::FromSpecImpl<T> for SetOption<T> {
    open spec fn obeys_from_spec() -> bool {
        true
    }

    open spec fn from_spec(value: T) -> Self {
        SetOption::SetTo(value)
    }
}

impl<T> From<Option<T>> for SetOption<T> {
    /// `Some` becomes `Set`, `None` becomes `NotSet`.
    fn from(value: Option<T>) -> (res: Self) {
        match value {
            Some(t) => SetOption::SetTo(t),
            None => SetOption::NotSet,
        }
    }
}

impl<T> vstd::std_specs::convert::FromSpecImpl<Option<T>> for SetOption<T> {
    open spec fn obeys_from_spec() -> bool {
        true
    }

    open spec fn from_spec(value: Option<T>) -> Self {
        match value {
            Some(t) => SetOption::SetTo(t),
            None => SetOption::NotSet,
        }
    }
}

impl<T> From<SetOption<T>> for Result<T, &'static str> {
    /// `Set` becomes `Ok`; `NotSet` is an error.
    fn from(value: SetOption<T>) -> (res: Self) {
        match value {
            SetOption::SetTo(value) => Ok(value),
            SetOption::NotSet => Err("Cannot convert NotSet variant to value"),
        }
    }
}

impl<T> vstd::std_specs::convert::FromSpecImpl<SetOption<T>> for Result<T, &'static str> {
    open spec fn obeys_from_spec() -> bool {
        true
    }

    open spec fn from_spec(value: SetOption<T>) -> Self {
        match value {
            SetOption::SetTo(v) => Ok(v),
            SetOption::NotSet => Err("Cannot convert NotSet variant to value"),
        }
    }
}

/// What the conversions and accessors of `SetOption` promise together: a
/// value converts to a set option and an `Option` converts to the option
/// whose `inner()` gives it back; `is_set` and `is_not_set` tell the two
/// variants apart; the conversion to `Result` succeeds exactly for a set
/// option, with its value.
pub proof fn law_set_option_round_trips<T>(s: SetOption<T>, o: Option<T>, v: T)
    ensures
        <SetOption<T> as FromSpec<Option<T>>>::from_spec(o).spec_inner() == o,
        <SetOption<T> as FromSpec<T>>::from_spec(v).spec_inner() == Some(v),
        (s is SetTo) != (s is NotSet),
        (s is SetTo) == (s.spec_inner() is Some),
        match <Result<T, &'static str> as FromSpec<SetOption<T>>>::from_spec(s) {
            Ok(x) => s.spec_inner() == Some(x),
            Err(_) => s.spec_inner() is None,
        },
{
}

} // verus!
