//! Bringing up the graphics context: which adapter and device to ask for,
//! and what a refusal means.
//!
//! The requests themselves are made by the caller. Bring-up is a chain of
//! values: a [`GraphicsRequest`] says which adapter to ask for; given the
//! answer it turns into a [`DeviceRequest`] or an error; given the device's
//! answer that turns into a [`GraphicsContext`] or an error.

use vstd::prelude::*;

verus! {

/// Which adapter to prefer where there are several.
#[derive(Clone, Copy, Debug, PartialEq, Eq, Structural)]
pub enum PowerPreference {
    LowPower,
    HighPerformance,
}

/// What is asked of an adapter.
#[derive(Clone, Copy, Debug, PartialEq, Eq, Structural)]
pub struct AdapterRequest {
    pub power_preference: PowerPreference,
    pub force_fallback_adapter: bool,
    /// Whether the adapter has to be able to render to the window's surface.
    pub compatible_with_surface: bool,
}

/// The device features the renderer asks for.
#[derive(Clone, Copy, Debug, PartialEq, Eq, Structural)]
pub struct Features {
    /// Rendering to several views at once, as stereo output needs it.
    pub multiview: bool,
}

/// Why the graphics context could not be brought up. Both are final: without
/// a device nothing else can exist, so nothing is tried again.
#[derive(Clone, Copy, Debug, PartialEq, Eq, Structural)]
pub enum InitError {
    NoCompatibleAdapter,
    DeviceCreationFailed,
}

/// The features and limits to bring the graphics context up with. The
/// limits are handed through to the device as they are.
#[derive(Debug, PartialEq)]
pub struct GraphicsRequest<L> {
    pub features: Features,
    pub limits: L,
}

/// What is asked of the adapter once it is found.
#[derive(Debug, PartialEq)]
pub struct DeviceRequest<L> {
    pub features: Features,
    pub limits: L,
}

/// What a graphics context was brought up with.
#[derive(Debug, PartialEq)]
pub struct GraphicsContext<L> {
    pub features: Features,
    pub limits: L,
}

/// The adapter every bring-up asks for: the default power preference, no
/// fallback adapter, able to render to the window's surface.
pub open spec fn adapter_request_spec() -> AdapterRequest {
    AdapterRequest {
        power_preference: PowerPreference::LowPower,
        force_fallback_adapter: false,
        compatible_with_surface: true,
    }
}

impl InitError {
    /// The message with which the process ends on this error.
    pub open spec fn message_spec(self) -> Seq<char> {
        match self {
            InitError::NoCompatibleAdapter => "Failed to find an appropriate adapter"@,
            InitError::DeviceCreationFailed => "Failed to create device"@,
        }
    }

    /// The message with which the process ends on this error.
    pub fn message(self) -> (message: &'static str)
        ensures
            message@ == self.message_spec(),
    {
        match self {
            InitError::NoCompatibleAdapter => "Failed to find an appropriate adapter",
            InitError::DeviceCreationFailed => "Failed to create device",
        }
    }
}

impl<L> GraphicsRequest<L> {
    /// Starts a bring-up with the requested features and limits.
    pub fn initialize(requested_features: Features, requested_limits: L) -> (request:
        GraphicsRequest<L>)
        ensures
            request.features == requested_features,
            request.limits == requested_limits,
    {
        GraphicsRequest { features: requested_features, limits: requested_limits }
    }

    /// The adapter to ask for.
    pub fn adapter_request(&self) -> (request: AdapterRequest)
        ensures
            request == adapter_request_spec(),
    {
        AdapterRequest {
            power_preference: PowerPreference::LowPower,
            force_fallback_adapter: false,
            compatible_with_surface: true,
        }
    }

    /// Goes on once the adapter has answered. With an adapter found, the
    /// device is asked for the requested features and limits; with none,
    /// bring-up fails with `NoCompatibleAdapter`.
    pub fn adapter_selected(self, found: bool) -> (next: Result<DeviceRequest<L>, InitError>)
        ensures
            found ==> next == Ok::<DeviceRequest<L>, InitError>(
                DeviceRequest { features: self.features, limits: self.limits },
            ),
            !found ==> next == Err::<DeviceRequest<L>, InitError>(InitError::NoCompatibleAdapter),
    {
        if found {
            Ok(DeviceRequest { features: self.features, limits: self.limits })
        } else {
            Err(InitError::NoCompatibleAdapter)
        }
    }
}

impl<L> DeviceRequest<L> {
    /// Ends the bring-up once the device has answered. With a device
    /// created, the context has what was requested; with none, bring-up
    /// fails with `DeviceCreationFailed`.
    pub fn device_created(self, created: bool) -> (context: Result<GraphicsContext<L>, InitError>)
        ensures
            created ==> context == Ok::<GraphicsContext<L>, InitError>(
                GraphicsContext { features: self.features, limits: self.limits },
            ),
            !created ==> context == Err::<GraphicsContext<L>, InitError>(
                InitError::DeviceCreationFailed,
            ),
    {
        if created {
            Ok(GraphicsContext { features: self.features, limits: self.limits })
        } else {
            Err(InitError::DeviceCreationFailed)
        }
    }
}

} // verus!
