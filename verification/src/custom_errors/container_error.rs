use vstd::prelude::*;

verus! {

/// Any one of the failures of this library, for the operations that can
/// fail in more than one way.
#[derive(Debug, Clone, Copy, PartialEq, Eq, Structural)]
pub enum ContainerError {
    AfterTheEnd,
    BeforeTheStart,
    ContainerEmpty,
    ContainerFull,
    DuplicateItems,
    InvalidArgument,
    InvalidState,
    ItemNotFound,
    NoCurrentItem,
}

impl ContainerError {
    /// The fixed message of the failure.
    pub fn description(&self) -> (msg: &'static str)
        ensures
            msg@ == (match *self {
                ContainerError::AfterTheEnd => "after the end error!"@,
                ContainerError::BeforeTheStart => "before the start error!"@,
                ContainerError::ContainerEmpty => "container empty error!"@,
                ContainerError::ContainerFull => "container full error!"@,
                ContainerError::DuplicateItems => "duplicate items error!"@,
                ContainerError::InvalidArgument => "invalid argument error!"@,
                ContainerError::InvalidState => "invalid state error!"@,
                ContainerError::ItemNotFound => "item not found error!"@,
                ContainerError::NoCurrentItem => "no current item error!"@,
            }),
    {
        match self {
            ContainerError::AfterTheEnd => "after the end error!",
            ContainerError::BeforeTheStart => "before the start error!",
            ContainerError::ContainerEmpty => "container empty error!",
            ContainerError::ContainerFull => "container full error!",
            ContainerError::DuplicateItems => "duplicate items error!",
            ContainerError::InvalidArgument => "invalid argument error!",
            ContainerError::InvalidState => "invalid state error!",
            ContainerError::ItemNotFound => "item not found error!",
            ContainerError::NoCurrentItem => "no current item error!",
        }
    }
}

} // verus!
