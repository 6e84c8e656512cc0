//! Per-call context objects.
//!
//! Each wraps exactly one raw host handle for the duration of one call. A
//! borrowed view has no way to release what it wraps; an owned resource
//! leaves its wrapper exactly once.

use vstd::prelude::*;

verus! {

/// A raw host handle: the address the host passed, or null.
#[derive(Clone, Copy, Debug, PartialEq, Eq, Structural)]
pub struct Handle {
    pub addr: usize,
}

impl Handle {
    pub open spec fn null_spec() -> Handle {
        Handle { addr: 0 }
    }

    pub open spec fn is_null_spec(&self) -> bool {
        self.addr == 0
    }

    /// The null handle.
    pub fn null() -> (h: Handle)
        ensures
            h == Handle::null_spec(),
    {
        Handle { addr: 0 }
    }

    /// Whether this is the null handle.
    pub fn is_null(&self) -> (r: bool)
        ensures
            r == self.is_null_spec(),
    {
        self.addr == 0
    }
}

/// A borrowed view of a settings object that the host owns.
pub struct DataObj {
    raw: Handle,
}

impl View for DataObj {
    type V = Handle;

    closed spec fn view(&self) -> Handle {
        self.raw
    }
}

impl DataObj {
    /// Views the settings object behind `raw` without taking ownership.
    pub fn new_unchecked(raw: Handle) -> (settings: DataObj)
        ensures
            settings@ == raw,
    {
        DataObj { raw }
    }

    /// The handle the view wraps.
    pub fn as_raw(&self) -> (raw: Handle)
        ensures
            raw == self@,
    {
        self.raw
    }
}

/// The host's own handle for the source being created.
pub struct SourceContext {
    source: Handle,
}

impl View for SourceContext {
    type V = Handle;

    closed spec fn view(&self) -> Handle {
        self.source
    }
}

impl SourceContext {
    /// Wraps the host's source handle.
    pub fn from_raw(source: Handle) -> (context: SourceContext)
        ensures
            context@ == source,
    {
        SourceContext { source }
    }

    /// The handle the context wraps.
    pub fn as_raw(&self) -> (raw: Handle)
        ensures
            raw == self@,
    {
        self.source
    }
}

/// A borrowed view of an audio buffer that the host owns.
pub struct AudioDataContext {
    raw: Handle,
}

impl View for AudioDataContext {
    type V = Handle;

    closed spec fn view(&self) -> Handle {
        self.raw
    }
}

impl AudioDataContext {
    /// Views the audio buffer behind `raw` without taking ownership.
    pub fn from_raw(raw: Handle) -> (audio: AudioDataContext)
        ensures
            audio@ == raw,
    {
        AudioDataContext { raw }
    }

    /// The handle the view wraps.
    pub fn as_raw(&self) -> (raw: Handle)
        ensures
            raw == self@,
    {
        self.raw
    }
}

/// A properties builder: a host resource that this layer owns until it is
/// handed over.
pub struct Properties {
    raw: Handle,
}

impl View for Properties {
    type V = Handle;

    closed spec fn view(&self) -> Handle {
        self.raw
    }
}

impl Properties {
    /// Takes ownership of the properties object behind `raw`.
    pub fn from_raw(raw: Handle) -> (properties: Properties)
        ensures
            properties@ == raw,
    {
        Properties { raw }
    }

    /// The handle the builder wraps.
    pub fn as_raw(&self) -> (raw: Handle)
        ensures
            raw == self@,
    {
        self.raw
    }

    /// Gives the resource up: the wrapper is gone and the handle is the
    /// caller's.
    pub fn into_raw(self) -> (raw: Handle)
        ensures
            raw == self@,
    {
        self.raw
    }
}

/// What becomes of an owned host resource at the end of a call: it goes to
/// the host or it is released, never both and never neither.
#[derive(Clone, Copy, Debug, PartialEq, Eq, Structural)]
pub struct Handoff {
    /// The raw value returned to the host; null when nothing is forwarded.
    pub to_host: Handle,
    /// The resource to release, if it was not forwarded.
    pub to_release: Option<Handle>,
}

impl Handoff {
    /// The resource is forwarded to the host.
    pub open spec fn forwarded(raw: Handle) -> Handoff {
        Handoff { to_host: raw, to_release: None }
    }

    /// The resource is released and the host receives null.
    pub open spec fn released(raw: Handle) -> Handoff {
        Handoff { to_host: Handle::null_spec(), to_release: Some(raw) }
    }
}

/// Process-wide state as one call sees it. It carries nothing from call to
/// call.
pub struct GlobalContext {}

impl Default for GlobalContext {
    fn default() -> (context: Self) {
        GlobalContext {  }
    }
}

/// The graphics state of one render call.
pub struct VideoRenderContext {}

impl Default for VideoRenderContext {
    fn default() -> (context: Self) {
        VideoRenderContext {  }
    }
}

/// The context of one enumeration of active child sources.
pub struct EnumActiveContext {}

/// The context of one enumeration of all child sources.
pub struct EnumAllContext {}

/// Elapsed seconds as the host passed them: the bits of an IEEE 754
/// single-precision number.
#[derive(Clone, Copy, Debug, PartialEq, Eq, Structural)]
pub struct Seconds {
    pub bits: u32,
}

} // verus!
