use vstd::prelude::*;
use crate::text::{concat, concat4, decimal, usize_to_decimal};

verus! {

/// Why launching work on the device failed.
#[derive(Debug, Clone, PartialEq, Eq)]
pub enum LaunchError {
    Unimplemented(&'static str),
    InvalidLaunchConfig(String),
    ModuleLoad(String),
    FunctionNotFound(String),
    Cuda(String),
    Cublas(String),
    OutOfMemory { requested: usize, available: usize },
    ShapeMismatch { expected: String, found: String },
}

pub type LaunchResult<T> = Result<T, LaunchError>;

/// A launch error with its texts as plain character sequences.
pub ghost enum ErrorView {
    Unimplemented(Seq<char>),
    InvalidLaunchConfig(Seq<char>),
    ModuleLoad(Seq<char>),
    FunctionNotFound(Seq<char>),
    Cuda(Seq<char>),
    Cublas(Seq<char>),
    OutOfMemory { requested: nat, available: nat },
    ShapeMismatch { expected: Seq<char>, found: Seq<char> },
}

impl View for LaunchError {
    type V = ErrorView;

    open spec fn view(&self) -> ErrorView {
        match self {
            LaunchError::Unimplemented(what) => ErrorView::Unimplemented(what@),
            LaunchError::InvalidLaunchConfig(msg) => ErrorView::InvalidLaunchConfig(msg@),
            LaunchError::ModuleLoad(msg) => ErrorView::ModuleLoad(msg@),
            LaunchError::FunctionNotFound(name) => ErrorView::FunctionNotFound(name@),
            LaunchError::Cuda(msg) => ErrorView::Cuda(msg@),
            LaunchError::Cublas(msg) => ErrorView::Cublas(msg@),
            LaunchError::OutOfMemory { requested, available } => ErrorView::OutOfMemory {
                requested: *requested as nat,
                available: *available as nat,
            },
            LaunchError::ShapeMismatch { expected, found } => ErrorView::ShapeMismatch {
                expected: expected@,
                found: found@,
            },
        }
    }
}

/// A launch result with its error, if any, as plain values.
pub open spec fn result_view<T>(r: LaunchResult<T>) -> Result<T, ErrorView> {
    match r {
        Ok(v) => Ok(v),
        Err(e) => Err(e@),
    }
}

/// The human-readable description of `e`.
pub open spec fn error_message(e: ErrorView) -> Seq<char> {
    match e {
        ErrorView::Unimplemented(what) => "unimplemented without the `cuda` feature: "@ + what,
        ErrorView::InvalidLaunchConfig(msg) => "invalid launch config: "@ + msg,
        ErrorView::ModuleLoad(msg) => "ptx module load failed: "@ + msg,
        ErrorView::FunctionNotFound(name) => "kernel function not found: "@ + name,
        ErrorView::Cuda(msg) => "cuda error: "@ + msg,
        ErrorView::Cublas(msg) => "cublas error: "@ + msg,
        ErrorView::OutOfMemory { requested, available } => "out of device memory: requested "@
            + decimal(requested) + " bytes, "@ + decimal(available) + " available"@,
        ErrorView::ShapeMismatch { expected, found } => "shape mismatch: expected "@ + expected
            + ", found "@ + found,
    }
}

impl LaunchError {
    /// The human-readable description of the error.
    pub fn message(&self) -> (s: String)
        ensures
            s@ == error_message(self@),
    {
        match self {
            LaunchError::Unimplemented(what) => concat(
                "unimplemented without the `cuda` feature: ",
                what,
            ),
            LaunchError::InvalidLaunchConfig(msg) => concat(
                "invalid launch config: ",
                msg.as_str(),
            ),
            LaunchError::ModuleLoad(msg) => concat("ptx module load failed: ", msg.as_str()),
            LaunchError::FunctionNotFound(name) => concat(
                "kernel function not found: ",
                name.as_str(),
            ),
            LaunchError::Cuda(msg) => concat("cuda error: ", msg.as_str()),
            LaunchError::Cublas(msg) => concat("cublas error: ", msg.as_str()),
            LaunchError::OutOfMemory { requested, available } => {
                let r = usize_to_decimal(*requested);
                let a = usize_to_decimal(*available);
                let mut s = concat4(
                    "out of device memory: requested ",
                    r.as_str(),
                    " bytes, ",
                    a.as_str(),
                );
                s = concat(s.as_str(), " available");
                s
            },
            LaunchError::ShapeMismatch { expected, found } => concat4(
                "shape mismatch: expected ",
                expected.as_str(),
                ", found ",
                found.as_str(),
            ),
        }
    }
}

} // verus!
