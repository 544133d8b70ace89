use vstd::prelude::*;

verus! {

/// Rejections raised when a buffer is built: the capacity is not an
/// acceptable power of two, or it exceeds the ceiling.
#[derive(Debug, Clone, PartialEq, Eq, Structural)]
pub enum BuildError {
    InvalidCapacity,
    TooLarge,
}

impl BuildError {
    /// A human-readable description of the rejection.
    pub fn message(&self) -> (r: &'static str)
        ensures
            *self == BuildError::InvalidCapacity ==> r@ == "Capacity must be a power of two"@,
            *self == BuildError::TooLarge ==> r@ == "Capacity exceeds maximum size"@,
    {
        match self {
            BuildError::InvalidCapacity => "Capacity must be a power of two",
            BuildError::TooLarge => "Capacity exceeds maximum size",
        }
    }
}

/// Rejections a push can report. `BufferFull` is returned when no free slot
/// remains; since sequenced slots are never recycled, the buffer accepts at
/// most `capacity` events over its lifetime. `Shutdown` is reserved for a
/// shutdown-aware push and is never produced by the current operations.
#[derive(Debug, Clone, PartialEq, Eq, Structural)]
pub enum PushError {
    BufferFull,
    Shutdown,
}

impl PushError {
    /// A human-readable description of the rejection.
    pub fn message(&self) -> (r: &'static str)
        ensures
            *self == PushError::BufferFull ==> r@ == "Buffer is full"@,
            *self == PushError::Shutdown ==> r@ == "Buffer is shutting down"@,
    {
        match self {
            PushError::BufferFull => "Buffer is full",
            PushError::Shutdown => "Buffer is shutting down",
        }
    }
}

} // verus!
