use vstd::prelude::*;

verus! {

/// Oldest major version of macOS whose AuthenticationServices offers the
/// platform public-key credential provider.
pub const MIN_MACOS_MAJOR: i64 = 13;

/// What a probe of the host reports, once per process.
#[derive(Debug, Clone, Copy, PartialEq, Eq, Structural)]
pub struct HostProbe {
    /// The host runs macOS, the one OS with a platform adapter.
    pub is_macos: bool,
    /// Major version of the operating system.
    pub os_major: i64,
    /// The native provider class was found at run time.
    pub provider_present: bool,
}

/// The platform adapter: whether its provider can be used, and whether it
/// needs an explicit relying-party identifier.
#[derive(Debug, Clone, Copy, PartialEq, Eq, Structural)]
pub struct PlatformAdapter {
    pub provider_available: bool,
    pub requires_rp_id: bool,
}

/// The adapter bound for the process: a platform one, or none at all.
#[derive(Debug, Clone, Copy, PartialEq, Eq, Structural)]
pub enum Adapter {
    Platform(PlatformAdapter),
    NoCapability,
}

/// The adapter that a host probe selects.
pub open spec fn selected_adapter(probe: HostProbe) -> Adapter {
    if probe.is_macos {
        Adapter::Platform(
            PlatformAdapter {
                provider_available: probe.provider_present && probe.os_major >= MIN_MACOS_MAJOR,
                requires_rp_id: true,
            },
        )
    } else {
        Adapter::NoCapability
    }
}

/// Whether ceremonies can run on an adapter.
pub open spec fn supported(adapter: Adapter) -> bool {
    match adapter {
        Adapter::Platform(p) => p.provider_available,
        Adapter::NoCapability => false,
    }
}

/// Chooses the adapter for the process from what the host reports.
pub fn select_adapter(probe: &HostProbe) -> (adapter: Adapter)
    ensures
        adapter == selected_adapter(*probe),
{
    if probe.is_macos {
        Adapter::Platform(
            PlatformAdapter {
                provider_available: probe.provider_present && probe.os_major >= MIN_MACOS_MAJOR,
                requires_rp_id: true,
            },
        )
    } else {
        Adapter::NoCapability
    }
}

/// Capability probe of an adapter: no side effect, the same answer each time.
pub fn is_supported(adapter: &Adapter) -> (r: bool)
    ensures
        r == supported(*adapter),
{
    match adapter {
        Adapter::Platform(p) => p.provider_available,
        Adapter::NoCapability => false,
    }
}

} // verus!
