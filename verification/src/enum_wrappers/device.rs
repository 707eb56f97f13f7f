//! Enumerations that describe devices.
use crate::bindings::{
    NVML_TOPOLOGY_HOSTBRIDGE, NVML_TOPOLOGY_INTERNAL, NVML_TOPOLOGY_MULTIPLE, NVML_TOPOLOGY_NODE,
    NVML_TOPOLOGY_SINGLE, NVML_TOPOLOGY_SYSTEM,
};
use crate::error::NvmlError;
use vstd::prelude::*;

verus! {

/// How far apart two devices are: the level at which their paths through the system meet.
#[derive(Debug, Clone, Copy, PartialEq, Eq, Structural)]
pub enum TopologyLevel {
    Internal,
    /// One PCIe switch lies between them.
    Single,
    /// Several PCIe switches lie between them.
    Multiple,
    /// They share a host bridge.
    HostBridge,
    /// They share a NUMA node, but no host bridge.
    Node,
    /// They are in the same system.
    System,
}

impl TopologyLevel {
    /// The number that NVML has for the level.
    pub open spec fn as_c(self) -> u32 {
        match self {
            TopologyLevel::Internal => NVML_TOPOLOGY_INTERNAL,
            TopologyLevel::Single => NVML_TOPOLOGY_SINGLE,
            TopologyLevel::Multiple => NVML_TOPOLOGY_MULTIPLE,
            TopologyLevel::HostBridge => NVML_TOPOLOGY_HOSTBRIDGE,
            TopologyLevel::Node => NVML_TOPOLOGY_NODE,
            TopologyLevel::System => NVML_TOPOLOGY_SYSTEM,
        }
    }

    /// `r` is the level that has the number `level`, or refuses the number if no level has it.
    pub open spec fn is_level_of(r: Result<TopologyLevel, NvmlError>, level: u32) -> bool {
        match r {
            Ok(topology_level) => topology_level.as_c() == level,
            Err(error) => error == NvmlError::UnexpectedVariant(level) && forall|l: TopologyLevel|
                l.as_c() != level,
        }
    }

    /// The level that NVML has this number for.
    pub fn try_from(level: u32) -> (r: Result<Self, NvmlError>)
        ensures
            Self::is_level_of(r, level),
    {
        match level {
            NVML_TOPOLOGY_INTERNAL => Ok(TopologyLevel::Internal),
            NVML_TOPOLOGY_SINGLE => Ok(TopologyLevel::Single),
            NVML_TOPOLOGY_MULTIPLE => Ok(TopologyLevel::Multiple),
            NVML_TOPOLOGY_HOSTBRIDGE => Ok(TopologyLevel::HostBridge),
            NVML_TOPOLOGY_NODE => Ok(TopologyLevel::Node),
            NVML_TOPOLOGY_SYSTEM => Ok(TopologyLevel::System),
            _ => Err(NvmlError::UnexpectedVariant(level)),
        }
    }
}

/// Every level is found by its number.
pub proof fn level_is_found_by_its_number(level: TopologyLevel, r: Result<TopologyLevel, NvmlError>)
    requires
        TopologyLevel::is_level_of(r, level.as_c()),
    ensures
        r == Ok::<TopologyLevel, NvmlError>(level),
{
}

} // verus!
