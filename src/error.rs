use vstd::prelude::*;

verus! {

/// The native call whose failure an error reports.
#[derive(Clone, Copy, Debug, PartialEq, Eq, Structural)]
pub enum NativeCall {
    CreateTexture,
    CreateRenderTargetView,
    CreateDepthStencilView,
    CreateSwapChain,
    Present,
    MapSubresource,
}

impl NativeCall {
    /// A human-readable description of what failed.
    pub fn context(&self) -> &'static str {
        match self {
            NativeCall::CreateTexture => "Failed to create 2D texture",
            NativeCall::CreateRenderTargetView => "Failed to create render target view",
            NativeCall::CreateDepthStencilView => "Failed to create depth / stencil view",
            NativeCall::CreateSwapChain => "Failed to create swap chain",
            NativeCall::Present => "Failed to present",
            NativeCall::MapSubresource => "Failed to map surface",
        }
    }
}

/// A failure status returned by the native API, with the call that returned it.
#[derive(Clone, Copy, Debug, PartialEq, Eq, Structural)]
pub struct NativeFailure {
    pub code: i32,
    pub call: NativeCall,
}

/// The errors that the legacy object model reports to its callers.
#[derive(Clone, Copy, Debug, PartialEq, Eq, Structural)]
pub enum Error {
    /// Bad arguments, or a state transition that is not allowed.
    InvalidCall,
    /// A query for a resource that is not bound.
    NotFound,
    /// A lock could not complete yet; the caller should retry.
    WasStillDrawing,
    /// The native API failed.
    Native(NativeFailure),
}

} // verus!
