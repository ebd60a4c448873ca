use vstd::prelude::*;

verus! {

/// Identifier of a user; the 128 bits of its UUID.
#[derive(Debug, Clone, Copy, PartialEq, Eq, Hash, Structural)]
pub struct UserId(pub u128);

impl View for UserId {
    type V = u128;

    open spec fn view(&self) -> u128 {
        self.0
    }
}

impl UserId {
    pub fn new(value: u128) -> (id: Self)
        ensures
            id@ == value,
    {
        Self(value)
    }

    pub fn as_uuid(&self) -> (value: u128)
        ensures
            value == self@,
    {
        self.0
    }
}

} // verus!

verus! {

/// Identifier of a session; the 128 bits of its UUID.
#[derive(Debug, Clone, Copy, PartialEq, Eq, Hash, Structural)]
pub struct SessionId(pub u128);

impl View for SessionId {
    type V = u128;

    open spec fn view(&self) -> u128 {
        self.0
    }
}

impl SessionId {
    pub fn new(value: u128) -> (id: Self)
        ensures
            id@ == value,
    {
        Self(value)
    }

    pub fn as_uuid(&self) -> (value: u128)
        ensures
            value == self@,
    {
        self.0
    }
}

} // verus!
