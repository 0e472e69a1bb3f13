//! Marker types naming a node configuration: the combination of data types
//! a deployment runs with and the transport it runs over, together with the
//! cross-node safety properties a run is held to.

use vstd::prelude::*;

verus! {

/// The data types a test deployment runs with.
#[derive(Clone, Copy, Debug, Default, PartialEq, Eq, Structural)]
pub struct TestTypes;

/// A deployment over the push CDN transport.
#[derive(Clone, Copy, Debug, PartialEq, Eq, Structural)]
pub struct PushCdnImpl;

/// A deployment over the in-memory transport.
#[derive(Clone, Copy, Debug, PartialEq, Eq, Structural)]
pub struct MemoryImpl;

/// A deployment over the peer-to-peer transport.
#[derive(Clone, Copy, Debug, PartialEq, Eq, Structural)]
pub struct Libp2pImpl;

/// A deployment over the web-server transport.
#[derive(Clone, Copy, Debug, PartialEq, Eq, Structural)]
pub struct WebImpl;

/// A deployment over the combined transport.
#[derive(Clone, Copy, Debug, PartialEq, Eq, Structural)]
pub struct CombinedImpl;

/// The cross-node safety properties a consensus run is held to.
#[derive(Clone, Copy, Debug, PartialEq, Eq, Structural)]
pub struct OverallSafetyPropertiesDescription {
    /// Number of successful views required of the run.
    pub num_successful_views: u64,
    /// Whether decided leaves must match across nodes.
    pub check_leaf: bool,
    /// Whether decided blocks must match across nodes.
    pub check_block: bool,
    /// Fewest transactions each decided block must hold; zero disables the
    /// check.
    pub transaction_threshold: u64,
    /// Number of views the run may fail in total.
    pub num_failed_views: u64,
}

impl Default for OverallSafetyPropertiesDescription {
    /// The strict defaults: fifty successful views, matching blocks, and no
    /// failed views allowed.
    fn default() -> (r: Self)
        ensures
            r.num_successful_views == 50,
            !r.check_leaf,
            r.check_block,
            r.transaction_threshold == 0,
            r.num_failed_views == 0,
    {
        OverallSafetyPropertiesDescription {
            num_successful_views: 50,
            check_leaf: false,
            check_block: true,
            transaction_threshold: 0,
            num_failed_views: 0,
        }
    }
}

} // verus!
