//! What the server is told of a channel that the driver offers.

use crate::memory::u32_from_memory;
use vstd::prelude::*;

verus! {

/// A globally unique identifier.
#[derive(Clone, Copy, Debug, PartialEq, Eq)]
pub struct Guid {
    pub data1: u32,
    pub data2: u16,
    pub data3: u16,
    pub data4: [u8; 8],
}

/// A channel as the driver describes it.
#[derive(Debug, PartialEq, Eq)]
pub struct ChannelOffer {
    pub interface_type: Guid,
    pub interface_instance: Guid,
    pub channel_flags: u16,
    pub mmio_megabytes: u16,
    pub mmio_megabytes_optional: u16,
    pub subchannel_index: u16,
    /// Bytes whose meaning rests on the kind of channel. Those of a pipe begin
    /// with the pipe's mode.
    pub user_defined: Vec<u8>,
}

/// The numbers that the driver's interface gives to the flags of an offer and to
/// the modes of a pipe.
#[derive(Debug, PartialEq, Eq)]
pub struct OfferEncoding {
    pub enumerate_device_interface: u16,
    pub named_pipe_mode: u16,
    pub request_monitored_notification: u16,
    pub pipe_type_byte: u32,
    pub pipe_type_message: u32,
}

/// What a channel carries.
#[derive(Clone, Copy, Debug, PartialEq, Eq, Structural)]
pub enum ChannelType {
    Device { pipe_packets: bool },
    Pipe { message_mode: bool },
}

/// A channel as it is offered to the server.
#[derive(Debug, PartialEq, Eq)]
pub struct OfferParams {
    pub interface_name: String,
    pub instance_id: Guid,
    pub interface_id: Guid,
    pub mmio_megabytes: u16,
    pub mmio_megabytes_optional: u16,
    pub subchannel_index: u16,
    pub channel_type: ChannelType,
    pub use_mnf: bool,
    pub offer_order: Option<u32>,
}

impl ChannelOffer {
    /// The offer has a bit of `mask` among its flags.
    pub open spec fn has_flag(self, mask: u16) -> bool {
        self.channel_flags & mask != 0
    }

    /// The mode of the pipe, where the offer is one of a pipe.
    pub open spec fn pipe_mode(self) -> nat {
        crate::memory::memory_value(self.user_defined@.take(4))
    }
}

impl OfferEncoding {
    /// The offer is one of a pipe.
    pub open spec fn is_pipe(self, offer: ChannelOffer) -> bool {
        offer.has_flag(self.enumerate_device_interface)
    }

    /// `offer` can be made to the server: if it is one of a pipe, its mode is
    /// there and is a known one.
    pub open spec fn supported(self, offer: ChannelOffer) -> bool {
        self.is_pipe(offer) ==> {
            &&& offer.user_defined@.len() >= 4
            &&& offer.pipe_mode() == self.pipe_type_byte || offer.pipe_mode()
                == self.pipe_type_message
        }
    }

    /// The kind of channel that a supported `offer` is about.
    pub open spec fn channel_type(self, offer: ChannelOffer) -> ChannelType {
        if self.is_pipe(offer) {
            ChannelType::Pipe { message_mode: offer.pipe_mode() != self.pipe_type_byte }
        } else {
            ChannelType::Device { pipe_packets: offer.has_flag(self.named_pipe_mode) }
        }
    }

    /// `params` is what the server is told of the supported `offer`, which the
    /// driver knows as channel `id`.
    pub open spec fn describes(self, id: u64, offer: ChannelOffer, params: OfferParams) -> bool {
        &&& params.interface_name@ == "proxy"@
        &&& params.instance_id == offer.interface_instance
        &&& params.interface_id == offer.interface_type
        &&& params.mmio_megabytes == offer.mmio_megabytes
        &&& params.mmio_megabytes_optional == offer.mmio_megabytes_optional
        &&& params.subchannel_index == offer.subchannel_index
        &&& params.channel_type == self.channel_type(offer)
        &&& params.use_mnf == offer.has_flag(self.request_monitored_notification)
        &&& params.offer_order == if id <= u32::MAX {
            Some(id as u32)
        } else {
            None
        }
    }

    /// The kind of channel that is offered with `channel_flags`, given the
    /// `pipe_mode` that the offer's own bytes hold.
    pub fn decode_channel_type(&self, channel_flags: u16, pipe_mode: u32) -> (channel_type:
        ChannelType)
        requires
            channel_flags & self.enumerate_device_interface != 0 ==> pipe_mode
                == self.pipe_type_byte || pipe_mode == self.pipe_type_message,
        ensures
            channel_flags & self.enumerate_device_interface != 0 ==> channel_type == (
            ChannelType::Pipe { message_mode: pipe_mode != self.pipe_type_byte }),
            channel_flags & self.enumerate_device_interface == 0 ==> channel_type == (
            ChannelType::Device { pipe_packets: channel_flags & self.named_pipe_mode != 0 }),
    {
        if channel_flags & self.enumerate_device_interface != 0 {
            ChannelType::Pipe { message_mode: pipe_mode != self.pipe_type_byte }
        } else {
            ChannelType::Device { pipe_packets: channel_flags & self.named_pipe_mode != 0 }
        }
    }

    /// Whether `offer` can be made to the server.
    pub fn is_supported(&self, offer: &ChannelOffer) -> (supported: bool)
        ensures
            supported == self.supported(*offer),
    {
        if offer.channel_flags & self.enumerate_device_interface == 0 {
            return true;
        }
        if offer.user_defined.len() < 4 {
            return false;
        }
        let pipe_mode = read_pipe_mode(&offer.user_defined);
        pipe_mode == self.pipe_type_byte || pipe_mode == self.pipe_type_message
    }

    /// What the server is told of `offer`, which the driver knows as channel `id`.
    pub fn offer_params(&self, id: u64, offer: &ChannelOffer) -> (params: OfferParams)
        requires
            self.supported(*offer),
        ensures
            self.describes(id, *offer, params),
    {
        let pipe_mode: u32 = if offer.channel_flags & self.enumerate_device_interface != 0 {
            read_pipe_mode(&offer.user_defined)
        } else {
            0
        };
        OfferParams {
            interface_name: "proxy".to_owned(),
            instance_id: offer.interface_instance,
            interface_id: offer.interface_type,
            mmio_megabytes: offer.mmio_megabytes,
            mmio_megabytes_optional: offer.mmio_megabytes_optional,
            subchannel_index: offer.subchannel_index,
            channel_type: self.decode_channel_type(offer.channel_flags, pipe_mode),
            use_mnf: offer.channel_flags & self.request_monitored_notification != 0,
            offer_order: if id <= u32::MAX as u64 {
                Some(id as u32)
            } else {
                None
            },
        }
    }
}

/// The number that the machine reads from the first four of `bytes`.
fn read_pipe_mode(bytes: &Vec<u8>) -> (pipe_mode: u32)
    requires
        bytes@.len() >= 4,
    ensures
        pipe_mode == crate::memory::memory_value(bytes@.take(4)),
{
    let first = [bytes[0], bytes[1], bytes[2], bytes[3]];
    assert(first@ =~= bytes@.take(4));
    u32_from_memory(first)
}

} // verus!
