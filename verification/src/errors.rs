use vstd::prelude::*;

verus! {

/// One wire operation failed: the connection's injected transport fault fired.
#[derive(Debug, Clone, Copy, PartialEq, Eq, Structural)]
pub struct RequestError;

/// Opening the connection failed.
#[derive(Debug, Clone, Copy, PartialEq, Eq, Structural)]
pub enum ConnectionError {
    /// The transport failed while connecting.
    Transport,
    /// The server's advertised default screen does not exist.
    NoSuchScreen,
}

/// Resolving the well-known atoms failed.
#[derive(Debug, Clone, Copy, PartialEq, Eq, Structural)]
pub enum AtomResolutionError {
    /// The transport failed while issuing an intern request.
    Transport,
    /// Some requested name resolved to no atom.
    Unresolved,
}

/// The visual-selection queries failed on the transport. Distinct from
/// falling back to the screen default, which is not a failure.
#[derive(Debug, Clone, Copy, PartialEq, Eq, Structural)]
pub struct VisualQueryError;

/// The compositor-presence queries failed on the transport.
#[derive(Debug, Clone, Copy, PartialEq, Eq, Structural)]
pub struct CompositorQueryError;

/// Window creation failed; the variant identifies the failing step.
#[derive(Debug, Clone, Copy, PartialEq, Eq, Structural)]
pub enum WindowCreationError {
    /// Allocating a fresh resource id failed: the id space is exhausted.
    IdAllocation,
    /// The colormap-creation request failed.
    ColormapCreation,
    /// The window-creation request failed.
    WindowCreation,
    /// One of the property-change requests failed.
    PropertyChange,
    /// The map request failed.
    MapRequest,
}

/// Binding a drawable surface to a window failed.
#[derive(Debug, Clone, Copy, PartialEq, Eq, Structural)]
pub struct SurfaceBindError;

/// Building a window together with its bound surface failed.
#[derive(Debug, Clone, Copy, PartialEq, Eq, Structural)]
pub enum WindowError {
    Creation(WindowCreationError),
    Binding(SurfaceBindError),
}

/// A bootstrap stage failed; the variant identifies the stage. No partially
/// initialized root is ever observable behind one of these.
#[derive(Debug, Clone, Copy, PartialEq, Eq, Structural)]
pub enum RootError {
    Connection(ConnectionError),
    AtomResolution(AtomResolutionError),
    VisualQuery(VisualQueryError),
    CompositorQuery(CompositorQueryError),
    /// The selected visual id is absent from every screen's visual list.
    VisualNotFound,
}

} // verus!
