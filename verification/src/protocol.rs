//! Sparse protocol configuration for the chipset's InSetProtocol command.
//!
//! The command body is an ordered list of (setting index, value) pairs;
//! absent settings are skipped entirely, so an all-absent configuration
//! serializes to no bytes at all and the command becomes a no-op.

use vstd::prelude::*;

verus! {

/// One optional setting: its index byte followed by its value byte when
/// present, nothing when absent.
pub open spec fn opt_pair(index: u8, v: Option<u8>) -> Seq<u8> {
    match v {
        Some(x) => seq![index, x],
        None => seq![],
    }
}

/// Configuration of the chipset's initiator protocol parameters. Every
/// field is optional; only present fields are sent to the device.
#[derive(Debug, Clone, Copy, PartialEq, Eq)]
pub struct ProtocolConfig {
    pub initial_guard_time: Option<u8>,
    pub add_crc: Option<u8>,
    pub check_crc: Option<u8>,
    pub multi_card: Option<u8>,
    pub add_parity: Option<u8>,
    pub check_parity: Option<u8>,
    pub bitwise_anticoll: Option<u8>,
    pub last_byte_bit_count: Option<u8>,
    pub mifare_crypto: Option<u8>,
    pub add_sof: Option<u8>,
    pub check_sof: Option<u8>,
    pub add_eof: Option<u8>,
    pub check_eof: Option<u8>,
    pub rfu: Option<u8>,
    pub deaf_time: Option<u8>,
    pub continuous_receive_mode: Option<u8>,
    pub min_len_for_crm: Option<u8>,
    pub type_1_tag_rrdd: Option<u8>,
    pub rfca: Option<u8>,
    pub guard_time: Option<u8>,
}

/// The serialized pair list of a configuration, in the fixed setting order
/// of the command.
pub open spec fn config_bytes_spec(c: ProtocolConfig) -> Seq<u8> {
    opt_pair(0x00, c.initial_guard_time) + opt_pair(0x01, c.add_crc)
        + opt_pair(0x02, c.check_crc) + opt_pair(0x03, c.multi_card)
        + opt_pair(0x04, c.add_parity) + opt_pair(0x05, c.check_parity)
        + opt_pair(0x06, c.bitwise_anticoll) + opt_pair(0x07, c.last_byte_bit_count)
        + opt_pair(0x08, c.mifare_crypto) + opt_pair(0x09, c.add_sof)
        + opt_pair(0x0a, c.check_sof) + opt_pair(0x0b, c.add_eof)
        + opt_pair(0x0c, c.check_eof) + opt_pair(0x0d, c.rfu)
        + opt_pair(0x0e, c.deaf_time) + opt_pair(0x0f, c.continuous_receive_mode)
        + opt_pair(0x10, c.min_len_for_crm) + opt_pair(0x11, c.type_1_tag_rrdd)
        + opt_pair(0x12, c.rfca) + opt_pair(0x13, c.guard_time)
}

/// The configuration with every setting absent.
pub open spec fn empty_config() -> ProtocolConfig {
    ProtocolConfig {
        initial_guard_time: None,
        add_crc: None,
        check_crc: None,
        multi_card: None,
        add_parity: None,
        check_parity: None,
        bitwise_anticoll: None,
        last_byte_bit_count: None,
        mifare_crypto: None,
        add_sof: None,
        check_sof: None,
        add_eof: None,
        check_eof: None,
        rfu: None,
        deaf_time: None,
        continuous_receive_mode: None,
        min_len_for_crm: None,
        type_1_tag_rrdd: None,
        rfca: None,
        guard_time: None,
    }
}

/// The configuration written to the device before each polling cycle.
pub open spec fn default_config() -> ProtocolConfig {
    ProtocolConfig {
        initial_guard_time: Some(0x18u8),
        add_crc: Some(0x01u8),
        check_crc: Some(0x01u8),
        multi_card: Some(0x00u8),
        add_parity: Some(0x00u8),
        check_parity: Some(0x00u8),
        bitwise_anticoll: Some(0x00u8),
        last_byte_bit_count: Some(0x08u8),
        mifare_crypto: Some(0x00u8),
        add_sof: Some(0x00u8),
        check_sof: Some(0x00u8),
        add_eof: Some(0x00u8),
        check_eof: Some(0x00u8),
        rfu: None,
        deaf_time: Some(0x00u8),
        continuous_receive_mode: Some(0x00u8),
        min_len_for_crm: Some(0x00u8),
        type_1_tag_rrdd: Some(0x00u8),
        rfca: Some(0x00u8),
        guard_time: Some(0x06u8),
    }
}

/// Appends one optional setting to the pair list.
fn push_pair(data: &mut Vec<u8>, index: u8, v: Option<u8>)
    ensures
        final(data)@ == old(data)@ + opt_pair(index, v),
{
    match v {
        Some(x) => {
            data.push(index);
            data.push(x);
            proof {
                assert(data@ =~= old(data)@ + opt_pair(index, v));
            }
        }
        None => {
            proof {
                assert(data@ =~= old(data)@ + opt_pair(index, v));
            }
        }
    }
}

impl ProtocolConfig {
    /// A configuration with every setting absent; serializes to nothing.
    pub fn new() -> (r: Self)
        ensures
            r == empty_config(),
    {
        ProtocolConfig {
            initial_guard_time: None,
            add_crc: None,
            check_crc: None,
            multi_card: None,
            add_parity: None,
            check_parity: None,
            bitwise_anticoll: None,
            last_byte_bit_count: None,
            mifare_crypto: None,
            add_sof: None,
            check_sof: None,
            add_eof: None,
            check_eof: None,
            rfu: None,
            deaf_time: None,
            continuous_receive_mode: None,
            min_len_for_crm: None,
            type_1_tag_rrdd: None,
            rfca: None,
            guard_time: None,
        }
    }

    /// The ordered (index, value) pair list of the present settings.
    pub fn to_vec(&self) -> (r: Vec<u8>)
        ensures
            r@ == config_bytes_spec(*self),
    {
        let mut data: Vec<u8> = Vec::new();
        push_pair(&mut data, 0x00, self.initial_guard_time);
        push_pair(&mut data, 0x01, self.add_crc);
        push_pair(&mut data, 0x02, self.check_crc);
        push_pair(&mut data, 0x03, self.multi_card);
        push_pair(&mut data, 0x04, self.add_parity);
        push_pair(&mut data, 0x05, self.check_parity);
        push_pair(&mut data, 0x06, self.bitwise_anticoll);
        push_pair(&mut data, 0x07, self.last_byte_bit_count);
        push_pair(&mut data, 0x08, self.mifare_crypto);
        push_pair(&mut data, 0x09, self.add_sof);
        push_pair(&mut data, 0x0a, self.check_sof);
        push_pair(&mut data, 0x0b, self.add_eof);
        push_pair(&mut data, 0x0c, self.check_eof);
        push_pair(&mut data, 0x0d, self.rfu);
        push_pair(&mut data, 0x0e, self.deaf_time);
        push_pair(&mut data, 0x0f, self.continuous_receive_mode);
        push_pair(&mut data, 0x10, self.min_len_for_crm);
        push_pair(&mut data, 0x11, self.type_1_tag_rrdd);
        push_pair(&mut data, 0x12, self.rfca);
        push_pair(&mut data, 0x13, self.guard_time);
        proof {
            assert(data@ =~= config_bytes_spec(*self));
        }
        data
    }
}

impl Default for ProtocolConfig {
    /// The settings written before each polling cycle.
    fn default() -> (r: Self)
        ensures
            r == default_config(),
    {
        ProtocolConfig {
            initial_guard_time: Some(0x18),
            add_crc: Some(0x01),
            check_crc: Some(0x01),
            multi_card: Some(0x00),
            add_parity: Some(0x00),
            check_parity: Some(0x00),
            bitwise_anticoll: Some(0x00),
            last_byte_bit_count: Some(0x08),
            mifare_crypto: Some(0x00),
            add_sof: Some(0x00),
            check_sof: Some(0x00),
            add_eof: Some(0x00),
            check_eof: Some(0x00),
            rfu: None,
            deaf_time: Some(0x00),
            continuous_receive_mode: Some(0x00),
            min_len_for_crm: Some(0x00),
            type_1_tag_rrdd: Some(0x00),
            rfca: Some(0x00),
            guard_time: Some(0x06),
        }
    }
}

} // verus!
