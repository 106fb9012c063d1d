//! The reader device: card discovery and block reads over the chipset
//! driver.

use vstd::prelude::*;

use crate::chipset::{exchange_spec, Bitrate, Chipset, CMD_SET_COMMAND_TYPE, CMD_SWITCH_RF};
use crate::errors::Error;
use crate::felica::{
    build_polling_request, build_read_request, compute_read_timeout_us, parse_polling_response,
    parse_read_response, polling_parse_ok, read_parse_ok, read_request_spec, BlockCode, Card,
    PollingRequestCode, PollingResponse, PollingTimeSlot, ReadWithoutEncryptionResponse,
    ServiceCode,
};
use crate::protocol::ProtocolConfig;
use crate::transport::Transport;

verus! {

/// A card reader device. Every successful poll yields a card that some
/// acceptable polling response describes, and every successful read
/// yields zero status flags and the 16-byte records of an acceptable
/// read response.
pub trait Device {
    /// Discovers a card in the RF field, optionally filtered by system
    /// code. A failure here ordinarily means no card is present.
    fn polling(
        &mut self,
        bitrate: Bitrate,
        system_code: Option<u16>,
        request_code: PollingRequestCode,
        time_slot: PollingTimeSlot,
    ) -> (r: Result<PollingResponse, Error>)
        ensures
            r matches Ok(p) ==> exists|res: Seq<u8>| polling_parse_ok(res, request_code, p),
    ;

    /// Reads blocks of the card without encryption. The request must fit
    /// the one-byte length field of the carrying command.
    fn read_without_encryption(
        &mut self,
        card: &Card,
        service_codes: &Vec<ServiceCode>,
        block_codes: &Vec<BlockCode>,
    ) -> (r: Result<ReadWithoutEncryptionResponse, Error>)
        requires
            service_codes@.len() <= 0xff,
            block_codes@.len() <= 0xff,
            read_request_spec(card@.idm, service_codes@, block_codes@).len() <= 247,
        ensures
            r matches Ok(p) ==> exists|res: Seq<u8>| read_parse_ok(res, card@.idm, p),
            r matches Ok(p) ==> p.status_flag1 == 0 && p.status_flag2 == 0
                && forall|i: int|
                    0 <= i < p.block_data@.len() ==> #[trigger] p.block_data@[i]@.len() == 16,
    ;
}

/// The USB NFC reader chipset, driven over a transport.
pub struct RCS380<T: Transport> {
    chipset: Chipset<T>,
}

impl<T: Transport> RCS380<T> {
    /// Opens the device: runs the chipset's init sequence over the
    /// transport. The call succeeds only when the device answered both
    /// init exchanges with the single zero byte.
    pub fn new(transport: T) -> (r: Result<RCS380<T>, Error>)
        ensures
            r is Ok ==> (exists|ack: Seq<u8>, resp: Seq<u8>|
                exchange_spec(ack, resp, CMD_SET_COMMAND_TYPE) == Ok::<Seq<u8>, Error>(seq![0x00u8]))
                && (exists|ack: Seq<u8>, resp: Seq<u8>|
                exchange_spec(ack, resp, CMD_SWITCH_RF) == Ok::<Seq<u8>, Error>(seq![0x00u8])),
    {
        match Chipset::new(transport) {
            Ok(chipset) => Ok(RCS380 { chipset }),
            Err(e) => Err(e),
        }
    }

    /// Switches the RF field off; the call succeeds only when the
    /// device answered the SwitchRF exchange with the single zero byte.
    pub fn mute(&mut self) -> (r: Result<(), Error>)
        ensures
            r is Ok ==> exists|ack: Seq<u8>, resp: Seq<u8>|
                exchange_spec(ack, resp, CMD_SWITCH_RF) == Ok::<Seq<u8>, Error>(seq![0x00u8]),
    {
        self.chipset.switch_rf(false)
    }

    /// Ends the session: RF field off, then the soft-reset bytes. The
    /// call succeeds only when the device answered the SwitchRF exchange
    /// with the single zero byte.
    pub fn close(&mut self) -> (r: Result<(), Error>)
        ensures
            r is Ok ==> exists|ack: Seq<u8>, resp: Seq<u8>|
                exchange_spec(ack, resp, CMD_SWITCH_RF) == Ok::<Seq<u8>, Error>(seq![0x00u8]),
    {
        self.chipset.close()
    }
}

impl<T: Transport> Device for RCS380<T> {
    fn polling(
        &mut self,
        bitrate: Bitrate,
        system_code: Option<u16>,
        request_code: PollingRequestCode,
        time_slot: PollingTimeSlot,
    ) -> (r: Result<PollingResponse, Error>) {
        self.chipset.in_set_rf(bitrate, None)?;
        let config = ProtocolConfig::default();
        self.chipset.in_set_protocol(&config)?;
        let req = build_polling_request(system_code, request_code, time_slot);
        let res = self.chipset.in_comm_rf(&req, 10000)?;
        let parsed = parse_polling_response(&res, request_code);
        proof {
            if parsed is Ok {
                assert(polling_parse_ok(res@, request_code, parsed->Ok_0));
            }
        }
        parsed
    }

    fn read_without_encryption(
        &mut self,
        card: &Card,
        service_codes: &Vec<ServiceCode>,
        block_codes: &Vec<BlockCode>,
    ) -> (r: Result<ReadWithoutEncryptionResponse, Error>) {
        let req = build_read_request(card, service_codes, block_codes);
        let pmm = card.pmm();
        let timeout_us = compute_read_timeout_us(pmm[4], block_codes.len());
        let res = self.chipset.in_comm_rf(&req, timeout_us)?;
        let idm = card.idm();
        let parsed = parse_read_response(&res, &idm);
        proof {
            if parsed is Ok {
                assert(read_parse_ok(res@, card@.idm, parsed->Ok_0));
            }
        }
        parsed
    }
}

} // verus!
