//! Network compatibility types: transmission kinds, the error taxonomy of
//! the transports, and the reliability models used to exercise consensus
//! under message delay, loss and repetition.

use vstd::prelude::*;

use crate::crypto::{random_bool_ratio, random_u64_inclusive};
use crate::message::{Message, MessagePurpose};

verus! {

/// Errors of the in-memory network.
#[derive(Clone, Copy, Debug, PartialEq, Eq, Structural)]
pub enum MemoryNetworkError {
    Stub,
}

/// Errors of the centralized-server network.
#[derive(Clone, Copy, Debug, PartialEq, Eq, Structural)]
pub enum CentralizedServerNetworkError {
    /// The centralized server could not find a specific message.
    NoMessagesInQueue,
}

/// Errors of the push CDN network.
#[derive(Clone, Copy, Debug, PartialEq, Eq, Structural)]
pub enum PushCdnNetworkError {
    /// Failed to receive a message from the server.
    FailedToReceive,
    /// Failed to send a message to the server.
    FailedToSend,
}

/// Errors of the web-server network.
#[derive(Clone, Copy, Debug, PartialEq, Eq, Structural)]
pub enum WebServerNetworkError {
    /// The injected consensus data is incorrect.
    IncorrectConsensusData,
    /// The client returned an error.
    ClientError,
    /// An endpoint parsed incorrectly.
    EndpointError,
    /// The client disconnected.
    ClientDisconnected,
}

/// The kind of transmission a message asks for.
#[derive(Clone, Copy, Debug, PartialEq, Eq, Structural)]
pub enum TransmitType {
    /// Directly transmit to one node.
    Direct(u64),
    /// Broadcast the message to all nodes.
    Broadcast,
    /// Broadcast to the DA committee.
    DaCommitteeBroadcast,
}

/// When a broadcast should go out; transports may disregard it.
#[derive(Clone, Copy, Debug, PartialEq, Eq, Structural)]
pub enum BroadcastDelay {
    /// Broadcast immediately.
    Immediate,
    /// Delay the broadcast to a given view.
    View(u64),
}

/// A change in the network's node set.
#[derive(Clone, Copy, Debug, PartialEq, Eq, Structural)]
pub enum NetworkChange {
    /// A node connected.
    NodeConnected(u64),
    /// A node disconnected.
    NodeDisconnected(u64),
}

/// Marker for the messages a network can carry.
pub trait NetworkMsg: Sized {

}

impl NetworkMsg for Message {

}

/// Marker bundling what a request identifier needs.
pub trait Id: Sized {

}

impl Id for u64 {

}

/// A message with a view and a purpose.
pub trait ViewMessage: Sized {
    /// The view the message speaks about.
    fn view_number(&self) -> u64;

    /// The purpose of the message.
    fn purpose(&self) -> MessagePurpose;
}

impl ViewMessage for Message {
    fn view_number(&self) -> u64 {
        Message::view_number(self)
    }

    fn purpose(&self) -> MessagePurpose {
        self.kind.purpose()
    }
}

/// An ideal network: nothing is dropped or delayed.
#[derive(Clone, Copy, Debug, Default, PartialEq, Eq, Structural)]
pub struct PerfectNetwork {

}

impl PerfectNetwork {
    /// A perfect network never drops a packet.
    pub fn sample_keep(&self) -> (r: bool)
        ensures
            r,
    {
        true
    }

    /// A perfect network never delays a packet.
    pub fn sample_delay_ms(&self) -> (r: u64)
        ensures
            r == 0,
    {
        0
    }
}

/// A synchronous network: packets arrive within a bounded delay.
#[derive(Clone, Copy, Debug, Default, PartialEq, Eq, Structural)]
pub struct SynchronousNetwork {
    /// Largest delay a packet may suffer, in milliseconds.
    pub delay_high_ms: u64,
    /// Smallest delay a packet may suffer, in milliseconds.
    pub delay_low_ms: u64,
}

impl SynchronousNetwork {
    /// Create a synchronous network with the given delay bounds.
    pub fn new(timeout: u64, delay_low_ms: u64) -> (r: SynchronousNetwork)
        ensures
            r.delay_high_ms == timeout,
            r.delay_low_ms == delay_low_ms,
    {
        SynchronousNetwork { delay_high_ms: timeout, delay_low_ms }
    }

    /// A synchronous network never drops a packet.
    pub fn sample_keep(&self) -> (r: bool)
        ensures
            r,
    {
        true
    }

    /// Draw a delay within the configured bounds.
    pub fn sample_delay_ms(&self) -> (r: u64)
        requires
            self.delay_low_ms <= self.delay_high_ms,
        ensures
            self.delay_low_ms <= r <= self.delay_high_ms,
    {
        random_u64_inclusive(self.delay_low_ms, self.delay_high_ms)
    }
}

/// An asynchronous network: packets may be dropped outright or delayed
/// arbitrarily; a packet is kept with probability
/// `keep_numerator / keep_denominator`.
#[derive(Clone, Copy, Debug, PartialEq, Eq, Structural)]
pub struct AsynchronousNetwork {
    /// Numerator of the keep probability.
    pub keep_numerator: u32,
    /// Denominator of the keep probability.
    pub keep_denominator: u32,
    /// Smallest delay a packet may suffer, in milliseconds.
    pub delay_low_ms: u64,
    /// Largest delay a packet may suffer, in milliseconds.
    pub delay_high_ms: u64,
}

impl AsynchronousNetwork {
    /// Create an asynchronous network with the given keep ratio and delay
    /// bounds.
    pub fn new(
        keep_numerator: u32,
        keep_denominator: u32,
        delay_low_ms: u64,
        delay_high_ms: u64,
    ) -> (r: AsynchronousNetwork)
        ensures
            r.keep_numerator == keep_numerator,
            r.keep_denominator == keep_denominator,
            r.delay_low_ms == delay_low_ms,
            r.delay_high_ms == delay_high_ms,
    {
        AsynchronousNetwork { keep_numerator, keep_denominator, delay_low_ms, delay_high_ms }
    }

    /// Keep a packet with the configured probability.
    pub fn sample_keep(&self) -> bool
        requires
            self.keep_numerator <= self.keep_denominator,
            self.keep_denominator != 0,
    {
        random_bool_ratio(self.keep_numerator, self.keep_denominator)
    }

    /// Draw a delay within the configured bounds.
    pub fn sample_delay_ms(&self) -> (r: u64)
        requires
            self.delay_low_ms <= self.delay_high_ms,
        ensures
            self.delay_low_ms <= r <= self.delay_high_ms,
    {
        random_u64_inclusive(self.delay_low_ms, self.delay_high_ms)
    }
}

impl Default for AsynchronousNetwork {
    /// Disable every chance of failure: packets are kept with certainty
    /// and suffer no delay.
    fn default() -> (r: Self)
        ensures
            r.keep_numerator == 1,
            r.keep_denominator == 1,
            r.delay_low_ms == 0,
            r.delay_high_ms == 0,
    {
        AsynchronousNetwork {
            keep_numerator: 1,
            keep_denominator: 1,
            delay_low_ms: 0,
            delay_high_ms: 0,
        }
    }
}

/// A partially synchronous network: asynchronous until the global
/// stabilization time, synchronous after it. Elapsed time is handed in by
/// the caller, in milliseconds since the network started.
#[derive(Clone, Copy, Debug, PartialEq, Eq, Structural)]
pub struct PartiallySynchronousNetwork {
    /// The asynchronous portion.
    pub asynchronous: AsynchronousNetwork,
    /// The synchronous portion.
    pub synchronous: SynchronousNetwork,
    /// When the global stabilization time occurs, in milliseconds since the
    /// start.
    pub gst_ms: u64,
}

impl PartiallySynchronousNetwork {
    /// Create a partially synchronous network from its two portions and
    /// the global stabilization time.
    pub fn new(
        asynchronous: AsynchronousNetwork,
        synchronous: SynchronousNetwork,
        gst_ms: u64,
    ) -> (r: PartiallySynchronousNetwork)
        ensures
            r.asynchronous == asynchronous,
            r.synchronous == synchronous,
            r.gst_ms == gst_ms,
    {
        PartiallySynchronousNetwork { asynchronous, synchronous, gst_ms }
    }

    /// A partially synchronous network never drops a packet outright.
    pub fn sample_keep(&self) -> (r: bool)
        ensures
            r,
    {
        true
    }

    /// Draw a delay: before the stabilization time the asynchronous
    /// portion's delay applies, with dropped packets arriving only after
    /// stabilization; afterwards the synchronous portion's delay applies.
    pub fn sample_delay_ms(&self, elapsed_ms: u64) -> (r: u64)
        requires
            self.asynchronous.delay_low_ms <= self.asynchronous.delay_high_ms,
            self.asynchronous.keep_numerator <= self.asynchronous.keep_denominator,
            self.asynchronous.keep_denominator != 0,
            self.synchronous.delay_low_ms <= self.synchronous.delay_high_ms,
            self.synchronous.delay_high_ms + self.gst_ms <= u64::MAX,
        ensures
            elapsed_ms >= self.gst_ms ==> self.synchronous.delay_low_ms <= r
                <= self.synchronous.delay_high_ms,
            elapsed_ms < self.gst_ms ==> r <= self.asynchronous.delay_high_ms || (
            self.synchronous.delay_low_ms + self.gst_ms <= r <= self.synchronous.delay_high_ms
                + self.gst_ms),
    {
        if elapsed_ms < self.gst_ms {
            if self.asynchronous.sample_keep() {
                self.asynchronous.sample_delay_ms()
            } else {
                // treat the packet as dropped: it arrives only after the
                // stabilization time
                self.synchronous.sample_delay_ms() + self.gst_ms
            }
        } else {
            self.synchronous.sample_delay_ms()
        }
    }
}

impl Default for PartiallySynchronousNetwork {
    /// Both portions at their defaults, stabilizing immediately.
    fn default() -> (r: Self)
        ensures
            r.gst_ms == 0,
    {
        PartiallySynchronousNetwork {
            asynchronous: AsynchronousNetwork {
                keep_numerator: 1,
                keep_denominator: 1,
                delay_low_ms: 0,
                delay_high_ms: 0,
            },
            synchronous: SynchronousNetwork { delay_high_ms: 0, delay_low_ms: 0 },
            gst_ms: 0,
        }
    }
}

/// A chaotic network: packets may be dropped, delayed and repeated.
#[derive(Clone, Copy, Debug, PartialEq, Eq, Structural)]
pub struct ChaosNetwork {
    /// Numerator of the keep probability.
    pub keep_numerator: u32,
    /// Denominator of the keep probability.
    pub keep_denominator: u32,
    /// Smallest delay a packet may suffer, in milliseconds.
    pub delay_low_ms: u64,
    /// Largest delay a packet may suffer, in milliseconds.
    pub delay_high_ms: u64,
    /// Fewest times a packet is repeated.
    pub repeat_low: u64,
    /// Most times a packet is repeated.
    pub repeat_high: u64,
}

impl ChaosNetwork {
    /// Keep a packet with the configured probability.
    pub fn sample_keep(&self) -> bool
        requires
            self.keep_numerator <= self.keep_denominator,
            self.keep_denominator != 0,
    {
        random_bool_ratio(self.keep_numerator, self.keep_denominator)
    }

    /// Draw a delay within the configured bounds.
    pub fn sample_delay_ms(&self) -> (r: u64)
        requires
            self.delay_low_ms <= self.delay_high_ms,
        ensures
            self.delay_low_ms <= r <= self.delay_high_ms,
    {
        random_u64_inclusive(self.delay_low_ms, self.delay_high_ms)
    }

    /// Draw how many times to repeat a packet.
    pub fn sample_repeat(&self) -> (r: u64)
        requires
            self.repeat_low <= self.repeat_high,
        ensures
            self.repeat_low <= r <= self.repeat_high,
    {
        random_u64_inclusive(self.repeat_low, self.repeat_high)
    }
}

} // verus!
