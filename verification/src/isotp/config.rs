//! ISO-TP channel configuration.

use vstd::prelude::*;

use crate::id::CanId;
use crate::time::{duration_from_millis, millis_duration, Duration};

verus! {

/// How ISO-TP frames are addressed.
#[derive(Debug, Clone, Copy, PartialEq, Eq, Structural)]
pub enum AddressingMode {
    /// PCI bytes immediately follow the CAN ID. At most 7 bytes per SF.
    Normal,
    /// A target-address byte precedes the PCI. At most 6 bytes per SF.
    Extended { tx_target_address: u8, rx_target_address: u8 },
}

/// Configuration of an ISO-TP channel.
#[derive(Debug, Clone, Copy)]
pub struct IsoTpConfig {
    /// CAN ID frames are sent with.
    pub tx_id: CanId,
    /// CAN ID frames are accepted from.
    pub rx_id: CanId,
    /// CAN ID for functionally addressed (broadcast) single frames.
    pub functional_id: Option<CanId>,
    /// Normal or extended addressing.
    pub addressing: AddressingMode,
    /// Block size announced in our Flow Control frames (0: no limit).
    pub block_size: u8,
    /// STmin announced in our Flow Control frames (raw ISO-TP encoding).
    pub st_min: u8,
    /// Pad every frame to eight bytes with this byte, if set.
    pub padding: Option<u8>,
    /// N_Bs / N_Cr: how long to wait for the peer's next frame.
    pub timeout: Duration,
    /// How many FC(Wait) frames to tolerate in a row (0: no limit).
    pub max_fc_wait: u8,
}

/// The addressing bytes each transmitted frame starts with.
pub open spec fn tx_prefix_of(mode: AddressingMode) -> Seq<u8> {
    match mode {
        AddressingMode::Normal => Seq::empty(),
        AddressingMode::Extended { tx_target_address, .. } => seq![tx_target_address],
    }
}

/// How many bytes precede the PCI.
pub open spec fn overhead_of(mode: AddressingMode) -> usize {
    match mode {
        AddressingMode::Normal => 0usize,
        AddressingMode::Extended { .. } => 1usize,
    }
}

/// A received payload carries our target address (always so with normal
/// addressing).
pub open spec fn accepts_ta(mode: AddressingMode, data: Seq<u8>) -> bool {
    match mode {
        AddressingMode::Normal => true,
        AddressingMode::Extended { rx_target_address, .. } => data.len() > 0 && data[0]
            == rx_target_address,
    }
}

impl IsoTpConfig {
    /// A configuration with normal addressing, a 1 s timeout, no block-size
    /// limit, an STmin of 5 ms, padding with 0xCC, no functional ID and at
    /// most 10 consecutive FC(Wait) frames.
    pub fn new(tx_id: CanId, rx_id: CanId) -> (r: IsoTpConfig)
        ensures
            r.tx_id == tx_id,
            r.rx_id == rx_id,
            r.functional_id is None,
            r.addressing == AddressingMode::Normal,
            r.block_size == 0,
            r.st_min == 5,
            r.padding == Some(0xCCu8),
            r.max_fc_wait == 10,
            r.timeout == millis_duration(1000),
    {
        IsoTpConfig {
            tx_id,
            rx_id,
            functional_id: None,
            addressing: AddressingMode::Normal,
            block_size: 0,
            st_min: 5,
            padding: Some(0xCC),
            timeout: duration_from_millis(1000),
            max_fc_wait: 10,
        }
    }

    /// How many bytes precede the PCI: 1 with extended addressing, else 0.
    pub fn overhead(&self) -> (r: usize)
        ensures
            r == overhead_of(self.addressing),
    {
        match self.addressing {
            AddressingMode::Normal => 0,
            AddressingMode::Extended { .. } => 1,
        }
    }

    /// The addressing bytes each transmitted frame starts with.
    pub fn tx_prefix(&self) -> (r: Vec<u8>)
        ensures
            r@ == tx_prefix_of(self.addressing),
            r@.len() == overhead_of(self.addressing),
    {
        let mut v: Vec<u8> = Vec::new();
        if let AddressingMode::Extended { tx_target_address, .. } = self.addressing {
            v.push(tx_target_address);
        }
        assert(v@ =~= tx_prefix_of(self.addressing));
        v
    }

    /// Whether a received payload carries our target address.
    pub fn check_ta(&self, data: &[u8]) -> (r: bool)
        ensures
            r == accepts_ta(self.addressing, data@),
    {
        match self.addressing {
            AddressingMode::Normal => true,
            AddressingMode::Extended { rx_target_address, .. } => data.len() > 0 && data[0]
                == rx_target_address,
        }
    }
}

} // verus!
