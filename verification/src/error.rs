//! The failures that the library reports to its caller.

use crate::program::{ShaderStage, UniformType};
use vstd::prelude::*;

verus! {

/// A failure of one of the library's operations. Every one of them is handed
/// back to the caller, who decides whether to retry, fall back or give up.
#[derive(Clone, Debug, PartialEq, Eq)]
pub enum GolemError {
    /// The device refused to create a program, shader, buffer, texture or
    /// vertex-array identity.
    ResourceAllocation,
    /// A shader stage did not compile; `log` is the device's diagnostic text.
    ShaderCompile { stage: ShaderStage, log: String },
    /// The two stages did not link; `log` is the device's diagnostic text.
    ShaderLink { log: String },
    /// A value was bound to a uniform whose declared type it does not have.
    UniformTypeMismatch { name: String, expected: UniformType, got: UniformType },
    /// The operation is deliberately left out.
    UnsupportedOperation,
    /// An upload or a draw range reaches past what the buffers involved can hold.
    BufferBoundsViolation,
}

/// What a [`GolemError`] stands for, with texts as sequences of characters.
pub enum GolemErrorView {
    ResourceAllocation,
    ShaderCompile { stage: ShaderStage, log: Seq<char> },
    ShaderLink { log: Seq<char> },
    UniformTypeMismatch { name: Seq<char>, expected: UniformType, got: UniformType },
    UnsupportedOperation,
    BufferBoundsViolation,
}

impl View for GolemError {
    type V = GolemErrorView;

    open spec fn view(&self) -> GolemErrorView {
        match *self {
            GolemError::ResourceAllocation => GolemErrorView::ResourceAllocation,
            GolemError::ShaderCompile { stage, log } => GolemErrorView::ShaderCompile {
                stage,
                log: log@,
            },
            GolemError::ShaderLink { log } => GolemErrorView::ShaderLink { log: log@ },
            GolemError::UniformTypeMismatch {
                name,
                expected,
                got,
            } => GolemErrorView::UniformTypeMismatch { name: name@, expected, got },
            GolemError::UnsupportedOperation => GolemErrorView::UnsupportedOperation,
            GolemError::BufferBoundsViolation => GolemErrorView::BufferBoundsViolation,
        }
    }
}

/// What the outcome of an operation stands for: the view of what it made,
/// or the view of the error.
pub open spec fn outcome_view<T: View>(outcome: Result<T, GolemError>) -> Result<
    T::V,
    GolemErrorView,
> {
    match outcome {
        Ok(made) => Ok(made@),
        Err(error) => Err(error@),
    }
}

} // verus!
