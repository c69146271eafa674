//! The lifecycle shared by posts, comments and sub-comments, and the rule
//! that decides who may move an entity along it.

use vstd::prelude::*;

verus! {

/// Where an entity stands in its lifecycle. The order of the variants is the
/// order in which an entity passes through them; `Removed` is final.
#[derive(Clone, Copy, Debug, PartialEq, Eq, Structural)]
pub enum Status {
    /// Visible to everyone; its creator may change it.
    Open,
    /// Visible to everyone; frozen, its creator may only remove it.
    Locked,
    /// Kept in storage but hidden from every reader; nothing may change it.
    Removed,
}

/// An entity together with its lifecycle status, or the reason why a call
/// produced no entity.
///
/// The first three variants are what the board stores. `NotFound` and
/// `NoPermission` are outcomes of calls only and are never stored.
#[derive(Debug, PartialEq, Eq)]
#[verifier::ext_equal]
pub enum WithStatus<T> {
    /// Visible to everyone; its creator may change it.
    Open(T),
    /// Visible to everyone; frozen, its creator may only remove it.
    Locked(T),
    /// Kept in storage but hidden from every reader.
    Removed(T),
    /// The call named a post, a comment or a sub-comment that does not exist,
    /// or asked to withdraw a like that was never given.
    NotFound,
    /// The call was refused: the caller is not the creator, the requested
    /// status is unknown or cannot be reached from the current one, or an
    /// entity on the way is no longer open.
    NoPermission,
}

/// How far along its lifecycle a status is.
pub open spec fn rank(status: Status) -> nat {
    match status {
        Status::Open => 0,
        Status::Locked => 1,
        Status::Removed => 2,
    }
}

/// The status that a status name stands for. Names are case-sensitive; any
/// other text stands for none.
pub open spec fn parse_status(name: Seq<char>) -> Option<Status> {
    if name == "Open"@ {
        Some(Status::Open)
    } else if name == "Locked"@ {
        Some(Status::Locked)
    } else if name == "Removed"@ {
        Some(Status::Removed)
    } else {
        None
    }
}

/// The status that a call asks for: a call that names none asks for the
/// entity to stay open.
pub open spec fn requested_status(name: Option<Seq<char>>) -> Option<Status> {
    match name {
        None => Some(Status::Open),
        Some(name) => parse_status(name),
    }
}

/// The transition table: an open entity may take any status, a locked one
/// may only be removed, a removed one stays removed and takes no request.
pub open spec fn transition_allowed(current: Status, requested: Status) -> bool {
    match current {
        Status::Open => true,
        Status::Locked => requested == Status::Removed,
        Status::Removed => false,
    }
}

/// The access rule: only the creator of an entity may change it, and only
/// along the transition table.
pub open spec fn may_mutate_spec(
    caller: Seq<char>,
    creator: Seq<char>,
    current: Status,
    requested: Status,
) -> bool {
    caller == creator && transition_allowed(current, requested)
}

impl<T> WithStatus<T> {
    /// The lifecycle status of a stored entity; `None` for the two outcomes
    /// that carry no entity.
    pub open spec fn spec_status(&self) -> Option<Status> {
        match self {
            WithStatus::Open(_) => Some(Status::Open),
            WithStatus::Locked(_) => Some(Status::Locked),
            WithStatus::Removed(_) => Some(Status::Removed),
            WithStatus::NotFound => None,
            WithStatus::NoPermission => None,
        }
    }

    /// Whether this value carries an entity.
    pub open spec fn spec_is_entity(&self) -> bool {
        self.spec_status() is Some
    }

    /// Whether readers may see the entity: it is open or locked.
    pub open spec fn spec_is_visible(&self) -> bool {
        self is Open || self is Locked
    }

    /// The entity carried. Meaningful only where `is_entity` holds.
    pub open spec fn item(self) -> T {
        match self {
            WithStatus::Open(item) => item,
            WithStatus::Locked(item) => item,
            WithStatus::Removed(item) => item,
            WithStatus::NotFound => arbitrary(),
            WithStatus::NoPermission => arbitrary(),
        }
    }

    /// The entity `item` in the lifecycle status `status`.
    pub open spec fn of(status: Status, item: T) -> WithStatus<T> {
        match status {
            Status::Open => WithStatus::Open(item),
            Status::Locked => WithStatus::Locked(item),
            Status::Removed => WithStatus::Removed(item),
        }
    }

    /// The lifecycle status of a stored entity; `None` for the two outcomes
    /// that carry no entity.
    #[verifier::when_used_as_spec(spec_status)]
    pub fn status(&self) -> (status: Option<Status>)
        ensures
            status == self.spec_status(),
    {
        match self {
            WithStatus::Open(_) => Some(Status::Open),
            WithStatus::Locked(_) => Some(Status::Locked),
            WithStatus::Removed(_) => Some(Status::Removed),
            WithStatus::NotFound => None,
            WithStatus::NoPermission => None,
        }
    }

    /// Whether this value carries an entity.
    #[verifier::when_used_as_spec(spec_is_entity)]
    pub fn is_entity(&self) -> (entity: bool)
        ensures
            entity == self.spec_is_entity(),
    {
        match self {
            WithStatus::NotFound => false,
            WithStatus::NoPermission => false,
            _ => true,
        }
    }

    /// Whether readers may see the entity: it is open or locked.
    #[verifier::when_used_as_spec(spec_is_visible)]
    pub fn is_visible(&self) -> (visible: bool)
        ensures
            visible == self.spec_is_visible(),
    {
        match self {
            WithStatus::Open(_) => true,
            WithStatus::Locked(_) => true,
            _ => false,
        }
    }

    /// The entity carried, if there is one.
    pub fn get(&self) -> (item: Option<&T>)
        ensures
            self.is_entity() ==> item == Some(&self.item()),
            !self.is_entity() ==> item is None,
    {
        match self {
            WithStatus::Open(item) => Some(item),
            WithStatus::Locked(item) => Some(item),
            WithStatus::Removed(item) => Some(item),
            WithStatus::NotFound => None,
            WithStatus::NoPermission => None,
        }
    }

    /// Wraps `item` in the lifecycle status `status`.
    pub fn with_status(status: Status, item: T) -> (wrapped: WithStatus<T>)
        ensures
            wrapped == WithStatus::of(status, item),
    {
        match status {
            Status::Open => WithStatus::Open(item),
            Status::Locked => WithStatus::Locked(item),
            Status::Removed => WithStatus::Removed(item),
        }
    }

    /// Wraps `obj` in the status that `str` names. A name other than
    /// `"Open"`, `"Locked"` or `"Removed"` is refused: the result is
    /// `NoPermission` and `obj` is dropped.
    pub fn new_with_status_string(obj: T, str: String) -> (wrapped: WithStatus<T>)
        ensures
            wrapped == match parse_status(str@) {
                Some(status) => WithStatus::of(status, obj),
                None => WithStatus::NoPermission,
            },
    {
        match status_from_name(&str) {
            Some(status) => WithStatus::with_status(status, obj),
            None => WithStatus::NoPermission,
        }
    }
}

impl<T: View> View for WithStatus<T> {
    type V = WithStatus<T::V>;

    open spec fn view(&self) -> WithStatus<T::V> {
        match self {
            WithStatus::Open(item) => WithStatus::Open(item@),
            WithStatus::Locked(item) => WithStatus::Locked(item@),
            WithStatus::Removed(item) => WithStatus::Removed(item@),
            WithStatus::NotFound => WithStatus::NotFound,
            WithStatus::NoPermission => WithStatus::NoPermission,
        }
    }
}

/// The models of the entries that a list holds, in order.
pub open spec fn entry_views<T: View>(list: Seq<WithStatus<T>>) -> Seq<WithStatus<T::V>> {
    list.map_values(|entry: WithStatus<T>| entry@)
}

impl<T: Clone> Clone for WithStatus<T> {
    /// A copy in the same status, made of a copy of the entity.
    fn clone(&self) -> (copy: Self)
        ensures
            copy.spec_status() == self.spec_status(),
            copy is NotFound == self is NotFound,
            self.spec_is_entity() ==> cloned::<T>(self.item(), copy.item()),
    {
        match self {
            WithStatus::Open(item) => WithStatus::Open(item.clone()),
            WithStatus::Locked(item) => WithStatus::Locked(item.clone()),
            WithStatus::Removed(item) => WithStatus::Removed(item.clone()),
            WithStatus::NotFound => WithStatus::NotFound,
            WithStatus::NoPermission => WithStatus::NoPermission,
        }
    }
}

/// Reads a status name.
pub fn status_from_name(name: &String) -> (status: Option<Status>)
    ensures
        status == parse_status(name@),
{
    if *name == "Open".to_owned() {
        Some(Status::Open)
    } else if *name == "Locked".to_owned() {
        Some(Status::Locked)
    } else if *name == "Removed".to_owned() {
        Some(Status::Removed)
    } else {
        None
    }
}

/// Whether `name` is one of the three status names.
pub fn check_status_string(name: &String) -> (known: bool)
    ensures
        known == parse_status(name@) is Some,
{
    status_from_name(name).is_some()
}

/// Decides whether the transition table lets an entity in status `current`
/// take the status `requested`.
pub fn can_transition(current: Status, requested: Status) -> (allowed: bool)
    ensures
        allowed == transition_allowed(current, requested),
{
    match current {
        Status::Open => true,
        Status::Locked => requested == Status::Removed,
        Status::Removed => false,
    }
}

/// Decides whether `caller` may move an entity made by `creator` from the
/// status `current` to the status `requested`.
pub fn may_mutate(
    caller: &String,
    creator: &String,
    current: Status,
    requested: Status,
) -> (allowed: bool)
    ensures
        allowed == may_mutate_spec(caller@, creator@, current, requested),
{
    *caller == *creator && can_transition(current, requested)
}

/// An allowed transition never moves an entity back towards `Open`.
pub proof fn lemma_transition_moves_forward(current: Status, requested: Status)
    requires
        transition_allowed(current, requested),
    ensures
        rank(current) <= rank(requested),
{
}

/// Nothing leaves `Removed`, and nothing returns to `Open` from another
/// status.
pub proof fn lemma_removed_is_final(requested: Status)
    ensures
        !transition_allowed(Status::Removed, requested),
        !transition_allowed(Status::Locked, Status::Open),
        !transition_allowed(Status::Locked, Status::Locked),
{
}

} // verus!
