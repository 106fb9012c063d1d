//! The chipset driver: sequences init/shutdown and command/response
//! exchanges over a [`Transport`], on top of the packet codec.
//!
//! One exchange writes a framed command, reads an Ack frame, reads the
//! response frame, and validates that the response command code is the
//! request code plus one. Nothing is assumed of the bytes the transport
//! returns: the interpretation of the two read buffers is a verified
//! function of its own, and each driver call promises that any payload it
//! hands back came out of that interpretation.

use vstd::prelude::*;

use crate::codec::{decode_spec, Packet, PacketModel};
use crate::errors::{Error, FrameError, ProtocolError, TransportError};
use crate::protocol::{config_bytes_spec, ProtocolConfig};
use crate::text::{format_version, version_spec};
use crate::transport::Transport;

verus! {

pub const CMD_IN_SET_RF: u8 = 0x00;
pub const CMD_IN_SET_PROTOCOL: u8 = 0x02;
pub const CMD_IN_COMM_RF: u8 = 0x04;
pub const CMD_SWITCH_RF: u8 = 0x06;
pub const CMD_GET_FIRMWARE_VERSION: u8 = 0x20;
pub const CMD_SET_COMMAND_TYPE: u8 = 0x2a;

/// RF bitrate used toward the card; the two rates used in production.
#[derive(Debug, Clone, Copy, PartialEq, Eq)]
pub enum Bitrate {
    Bitrate212kbs,
    Bitrate424kbs,
}

/// The two send-bitrate setting bytes of the InSetRF command.
pub open spec fn bitrate_send_bytes(b: Bitrate) -> Seq<u8> {
    match b {
        Bitrate::Bitrate212kbs => seq![0x01u8, 0x01u8],
        Bitrate::Bitrate424kbs => seq![0x01u8, 0x02u8],
    }
}

/// The two receive-bitrate setting bytes of the InSetRF command.
pub open spec fn bitrate_recv_bytes(b: Bitrate) -> Seq<u8> {
    match b {
        Bitrate::Bitrate212kbs => seq![0x0fu8, 0x01u8],
        Bitrate::Bitrate424kbs => seq![0x0fu8, 0x02u8],
    }
}

/// What one command exchange yields from the two buffers read after the
/// command was written: the Ack frame must decode to Ack, the response
/// frame to a Data frame whose command code is the request code plus one;
/// its payload is the result.
pub open spec fn exchange_spec(ack: Seq<u8>, resp: Seq<u8>, cmd_code: u8) -> Result<Seq<u8>, Error> {
    match decode_spec(ack) {
        Err(e) => Err(Error::Frame(e)),
        Ok(PacketModel::Ack) => match decode_spec(resp) {
            Err(e) => Err(Error::Frame(e)),
            Ok(PacketModel::Data { cmd_code: c, payload }) => if c == cmd_code + 1 {
                Ok(payload)
            } else {
                Err(Error::Protocol(ProtocolError::ResponseCodeMismatch))
            },
            Ok(PacketModel::Error) => Err(Error::Protocol(ProtocolError::DeviceReportedError)),
            Ok(PacketModel::Ack) => Err(Error::Frame(FrameError::UnexpectedFrameType)),
        },
        Ok(_) => Err(Error::Protocol(ProtocolError::AckMismatch)),
    }
}

/// Validates the two buffers read during one exchange and extracts the
/// response payload; returns exactly what `exchange_spec` says of them.
pub fn interpret_exchange(ack: &Vec<u8>, resp: &Vec<u8>, cmd_code: u8) -> (r: Result<Vec<u8>, Error>)
    requires
        cmd_code < 0xff,
    ensures
        match r {
            Ok(v) => exchange_spec(ack@, resp@, cmd_code) == Ok::<Seq<u8>, Error>(v@),
            Err(e) => exchange_spec(ack@, resp@, cmd_code) == Err::<Seq<u8>, Error>(e),
        },
{
    let ack_packet = match Packet::deserialize(ack.as_slice()) {
        Ok(p) => p,
        Err(e) => {
            return Err(Error::Frame(e));
        }
    };
    match ack_packet {
        Packet::Ack => {}
        _ => {
            return Err(Error::Protocol(ProtocolError::AckMismatch));
        }
    }
    let resp_packet = match Packet::deserialize(resp.as_slice()) {
        Ok(p) => p,
        Err(e) => {
            return Err(Error::Frame(e));
        }
    };
    match resp_packet {
        Packet::Data { cmd_code: c, cmd_data } => {
            if c == cmd_code + 1 {
                Ok(cmd_data)
            } else {
                Err(Error::Protocol(ProtocolError::ResponseCodeMismatch))
            }
        }
        Packet::Error => Err(Error::Protocol(ProtocolError::DeviceReportedError)),
        Packet::Ack => Err(Error::Frame(FrameError::UnexpectedFrameType)),
    }
}

/// A reply is accepted by the short commands only when it is the single
/// zero byte.
pub fn check_zero_reply(data: &Vec<u8>) -> (r: Result<(), Error>)
    ensures
        r is Ok <==> data@ == seq![0x00u8],
        r is Err ==> r == Err::<(), Error>(Error::Protocol(ProtocolError::DeviceReportedError)),
{
    if data.len() == 1 && data[0] == 0x00 {
        proof {
            assert(data@ =~= seq![0x00u8]);
        }
        Ok(())
    } else {
        proof {
            if data@ == seq![0x00u8] {
                assert(data@.len() == 1 && data@[0] == 0x00);
                assert(false);
            }
        }
        Err(Error::Protocol(ProtocolError::DeviceReportedError))
    }
}

/// Strips the mandatory status prefix of an InCommRF reply: the first
/// four bytes must be zero, and what follows the five-byte header is the
/// card's answer.
pub fn strip_comm_status(data: &Vec<u8>) -> (r: Result<Vec<u8>, Error>)
    ensures
        match r {
            Ok(v) => data@.len() >= 5
                && data@[0] == 0 && data@[1] == 0 && data@[2] == 0 && data@[3] == 0
                && v@ == data@.skip(5),
            Err(e) => if data@.len() < 5 {
                e == Error::Protocol(ProtocolError::DeviceReportedError)
            } else {
                e == Error::Protocol(ProtocolError::NonZeroStatus)
                    && !(data@[0] == 0 && data@[1] == 0 && data@[2] == 0 && data@[3] == 0)
            },
        },
{
    if data.len() < 5 {
        return Err(Error::Protocol(ProtocolError::DeviceReportedError));
    }
    if !(data[0] == 0 && data[1] == 0 && data[2] == 0 && data[3] == 0) {
        return Err(Error::Protocol(ProtocolError::NonZeroStatus));
    }
    let rest = vstd::slice::slice_to_vec(&data.as_slice()[5..data.len()]);
    proof {
        assert(rest@ =~= data@.skip(5));
    }
    Ok(rest)
}

/// The body of an InCommRF command: the timeout field little-endian, the
/// length of the card command plus one, then the card command itself.
pub open spec fn comm_rf_data_spec(tenths: u16, send_data: Seq<u8>) -> Seq<u8> {
    seq![(tenths % 0x100) as u8, ((tenths / 0x100) % 0x100) as u8, (send_data.len() + 1) as u8]
        + send_data
}

/// Builds the body of an InCommRF command.
fn build_comm_rf_data(tenths: u16, send_data: &Vec<u8>) -> (r: Vec<u8>)
    requires
        send_data@.len() <= 247,
    ensures
        r@ == comm_rf_data_spec(tenths, send_data@),
{
    let mut cmd_data: Vec<u8> = Vec::new();
    cmd_data.push((tenths % 0x100) as u8);
    cmd_data.push((tenths / 0x100) as u8);
    cmd_data.push(send_data.len() as u8 + 1);
    let ghost header = cmd_data@;
    let mut i: usize = 0;
    while i < send_data.len()
        invariant
            i <= send_data@.len(),
            send_data@.len() <= 247,
            header.len() == 3,
            cmd_data@ == header + send_data@.take(i as int),
        decreases send_data@.len() - i,
    {
        cmd_data.push(send_data[i]);
        proof {
            assert(send_data@.take(i + 1)
                =~= send_data@.take(i as int).push(send_data@[i as int]));
        }
        i = i + 1;
    }
    proof {
        assert(send_data@.take(send_data@.len() as int) =~= send_data@);
        assert(cmd_data@ =~= comm_rf_data_spec(tenths, send_data@));
    }
    cmd_data
}

/// The device-side timeout field of InCommRF, in 0.1 ms units: zero when
/// the requested timeout is under a millisecond (no device timeout), else
/// one millisecond more than requested, saturated at the field's maximum.
pub open spec fn comm_timeout_tenths(timeout_us: u64) -> u16 {
    let ms = timeout_us / 1000;
    if ms == 0 {
        0
    } else if ms >= 6553 {
        0xffff
    } else {
        ((ms + 1) * 10) as u16
    }
}

/// Converts a timeout in microseconds to the InCommRF field value.
pub fn timeout_to_tenths(timeout_us: u64) -> (r: u16)
    ensures
        r == comm_timeout_tenths(timeout_us),
{
    let ms = timeout_us / 1000;
    if ms == 0 {
        0
    } else if ms >= 6553 {
        0xffff
    } else {
        ((ms + 1) * 10) as u16
    }
}

/// The chipset driver. Owns the transport for the whole session: built
/// once on device attach, shut down once with [`Chipset::close`].
pub struct Chipset<T: Transport> {
    transport: T,
}

impl<T: Transport> Chipset<T> {
    /// Opens a session: soft-resets the device by writing the raw Ack
    /// bytes, drains any stale input with a short best-effort read, then
    /// selects command type 1 and switches the RF field off. The call
    /// succeeds only when the device answered both setting exchanges
    /// with the single zero byte.
    pub fn new(transport: T) -> (r: Result<Chipset<T>, Error>)
        ensures
            r is Ok ==> (exists|ack: Seq<u8>, resp: Seq<u8>|
                exchange_spec(ack, resp, CMD_SET_COMMAND_TYPE) == Ok::<Seq<u8>, Error>(seq![0x00u8]))
                && (exists|ack: Seq<u8>, resp: Seq<u8>|
                exchange_spec(ack, resp, CMD_SWITCH_RF) == Ok::<Seq<u8>, Error>(seq![0x00u8])),
    {
        let mut chipset = Chipset { transport };
        match chipset.init() {
            Ok(()) => Ok(chipset),
            Err(e) => Err(e),
        }
    }

    fn init(&mut self) -> (r: Result<(), Error>)
        ensures
            r is Ok ==> (exists|ack: Seq<u8>, resp: Seq<u8>|
                exchange_spec(ack, resp, CMD_SET_COMMAND_TYPE) == Ok::<Seq<u8>, Error>(seq![0x00u8]))
                && (exists|ack: Seq<u8>, resp: Seq<u8>|
                exchange_spec(ack, resp, CMD_SWITCH_RF) == Ok::<Seq<u8>, Error>(seq![0x00u8])),
    {
        let ack = Packet::Ack.serialize();
        match self.transport.write(ack.as_slice(), None) {
            Ok(()) => {}
            Err(e) => {
                return Err(Error::Transport(e));
            }
        }
        // Best-effort drain of whatever the device still had to say; a
        // failure here is expected and ignored.
        let _ = self.transport.read(Some(10));
        self.set_command_type(1)?;
        self.switch_rf(false)?;
        Ok(())
    }

    /// Ends the session: RF field off, then the raw Ack bytes. The call
    /// succeeds only when the device answered the SwitchRF exchange with
    /// the single zero byte.
    pub fn close(&mut self) -> (r: Result<(), Error>)
        ensures
            r is Ok ==> exists|ack: Seq<u8>, resp: Seq<u8>|
                exchange_spec(ack, resp, CMD_SWITCH_RF) == Ok::<Seq<u8>, Error>(seq![0x00u8]),
    {
        self.switch_rf(false)?;
        let ack = Packet::Ack.serialize();
        match self.transport.write(ack.as_slice(), None) {
            Ok(()) => Ok(()),
            Err(e) => Err(Error::Transport(e)),
        }
    }

    /// One command exchange: write the framed command, read the Ack
    /// frame, read the response frame, validate, return the payload. Any
    /// payload returned was accepted by `exchange_spec` for this command
    /// code, whatever the device answered.
    pub fn send_packet(&mut self, cmd_code: u8, cmd_data: Vec<u8>) -> (r: Result<Vec<u8>, Error>)
        requires
            cmd_code < 0xff,
            cmd_data@.len() <= 250,
        ensures
            r matches Ok(v) ==> exists|ack: Seq<u8>, resp: Seq<u8>|
                exchange_spec(ack, resp, cmd_code) == Ok::<Seq<u8>, Error>(v@),
    {
        let packet = Packet::data(cmd_code, cmd_data);
        let out = packet.serialize();
        match self.transport.write(out.as_slice(), None) {
            Ok(()) => {}
            Err(e) => {
                return Err(Error::Transport(e));
            }
        }
        let ack_buf = match self.transport.read(None) {
            Ok(b) => b,
            Err(e) => {
                return Err(Error::Transport(e));
            }
        };
        let resp_buf = match self.transport.read(None) {
            Ok(b) => b,
            Err(e) => {
                return Err(Error::Transport(e));
            }
        };
        let r = interpret_exchange(&ack_buf, &resp_buf, cmd_code);
        proof {
            if r is Ok {
                assert(exchange_spec(ack_buf@, resp_buf@, cmd_code)
                    == Ok::<Seq<u8>, Error>(r->Ok_0@));
            }
        }
        r
    }

    /// Selects the command set of the chipset; the call succeeds only
    /// when the device answered the exchange with the single zero byte.
    pub fn set_command_type(&mut self, command_type: u8) -> (r: Result<(), Error>)
        ensures
            r is Ok ==> exists|ack: Seq<u8>, resp: Seq<u8>|
                exchange_spec(ack, resp, CMD_SET_COMMAND_TYPE) == Ok::<Seq<u8>, Error>(seq![0x00u8]),
    {
        let mut cmd_data: Vec<u8> = Vec::new();
        cmd_data.push(command_type);
        let data = self.send_packet(CMD_SET_COMMAND_TYPE, cmd_data)?;
        let checked = check_zero_reply(&data);
        proof {
            if checked is Ok {
                let (a, b) = choose|a: Seq<u8>, b: Seq<u8>|
                    exchange_spec(a, b, CMD_SET_COMMAND_TYPE) == Ok::<Seq<u8>, Error>(data@);
                assert(exchange_spec(a, b, CMD_SET_COMMAND_TYPE)
                    == Ok::<Seq<u8>, Error>(seq![0x00u8]));
            }
        }
        checked
    }

    /// Switches the RF field on or off; the call succeeds only when the
    /// device answered the exchange with the single zero byte.
    pub fn switch_rf(&mut self, rf: bool) -> (r: Result<(), Error>)
        ensures
            r is Ok ==> exists|ack: Seq<u8>, resp: Seq<u8>|
                exchange_spec(ack, resp, CMD_SWITCH_RF) == Ok::<Seq<u8>, Error>(seq![0x00u8]),
    {
        let mut cmd_data: Vec<u8> = Vec::new();
        cmd_data.push(if rf { 1 } else { 0 });
        let data = self.send_packet(CMD_SWITCH_RF, cmd_data)?;
        let checked = check_zero_reply(&data);
        proof {
            if checked is Ok {
                let (a, b) = choose|a: Seq<u8>, b: Seq<u8>|
                    exchange_spec(a, b, CMD_SWITCH_RF) == Ok::<Seq<u8>, Error>(data@);
                assert(exchange_spec(a, b, CMD_SWITCH_RF) == Ok::<Seq<u8>, Error>(seq![0x00u8]));
            }
        }
        checked
    }

    /// Sets the send and receive bitrates; a missing receive bitrate
    /// means the send bitrate is used for both directions. The call
    /// succeeds only when the device answered the exchange with the
    /// single zero byte.
    pub fn in_set_rf(&mut self, send_bitrate: Bitrate, recv_bitrate: Option<Bitrate>) -> (r: Result<(), Error>)
        ensures
            r is Ok ==> exists|ack: Seq<u8>, resp: Seq<u8>|
                exchange_spec(ack, resp, CMD_IN_SET_RF) == Ok::<Seq<u8>, Error>(seq![0x00u8]),
    {
        let recv = match recv_bitrate {
            Some(b) => b,
            None => send_bitrate,
        };
        let mut cmd_data: Vec<u8> = Vec::new();
        match send_bitrate {
            Bitrate::Bitrate212kbs => {
                cmd_data.push(0x01);
                cmd_data.push(0x01);
            }
            Bitrate::Bitrate424kbs => {
                cmd_data.push(0x01);
                cmd_data.push(0x02);
            }
        }
        match recv {
            Bitrate::Bitrate212kbs => {
                cmd_data.push(0x0f);
                cmd_data.push(0x01);
            }
            Bitrate::Bitrate424kbs => {
                cmd_data.push(0x0f);
                cmd_data.push(0x02);
            }
        }
        proof {
            assert(cmd_data@ =~= bitrate_send_bytes(send_bitrate) + bitrate_recv_bytes(recv));
        }
        let data = self.send_packet(CMD_IN_SET_RF, cmd_data)?;
        let checked = check_zero_reply(&data);
        proof {
            if checked is Ok {
                let (a, b) = choose|a: Seq<u8>, b: Seq<u8>|
                    exchange_spec(a, b, CMD_IN_SET_RF) == Ok::<Seq<u8>, Error>(data@);
                assert(exchange_spec(a, b, CMD_IN_SET_RF) == Ok::<Seq<u8>, Error>(seq![0x00u8]));
            }
        }
        checked
    }

    /// Writes the present protocol settings as (index, value) pairs. An
    /// all-absent configuration is a no-op that always succeeds without
    /// touching the device.
    pub fn in_set_protocol(&mut self, config: &ProtocolConfig) -> (r: Result<(), Error>)
        ensures
            config_bytes_spec(*config).len() == 0 ==> r is Ok,
            r is Ok && config_bytes_spec(*config).len() != 0 ==> exists|ack: Seq<u8>, resp: Seq<u8>|
                exchange_spec(ack, resp, CMD_IN_SET_PROTOCOL) == Ok::<Seq<u8>, Error>(seq![0x00u8]),
    {
        let cmd_data = config.to_vec();
        if cmd_data.len() == 0 {
            return Ok(());
        }
        assert(cmd_data@.len() <= 40);
        let data = self.send_packet(CMD_IN_SET_PROTOCOL, cmd_data)?;
        let checked = check_zero_reply(&data);
        proof {
            if checked is Ok {
                let (a, b) = choose|a: Seq<u8>, b: Seq<u8>|
                    exchange_spec(a, b, CMD_IN_SET_PROTOCOL) == Ok::<Seq<u8>, Error>(data@);
                assert(exchange_spec(a, b, CMD_IN_SET_PROTOCOL)
                    == Ok::<Seq<u8>, Error>(seq![0x00u8]));
            }
        }
        checked
    }

    /// Executes one card-level command: prepends the device timeout in
    /// 0.1 ms units and the length byte, exchanges the frames, and strips
    /// the validated all-zero status prefix from the reply.
    pub fn in_comm_rf(&mut self, send_data: &Vec<u8>, timeout_us: u64) -> (r: Result<Vec<u8>, Error>)
        requires
            send_data@.len() <= 247,
        ensures
            r matches Ok(v) ==> exists|reply: Seq<u8>|
                reply.len() >= 5 && reply[0] == 0 && reply[1] == 0 && reply[2] == 0
                    && reply[3] == 0 && v@ == #[trigger] reply.skip(5),
    {
        let tenths = timeout_to_tenths(timeout_us);
        let cmd_data = build_comm_rf_data(tenths, send_data);
        let data = self.send_packet(CMD_IN_COMM_RF, cmd_data)?;
        let stripped = strip_comm_status(&data);
        proof {
            if stripped is Ok {
                assert(stripped->Ok_0@ == data@.skip(5));
            }
        }
        stripped
    }

    /// Asks the chipset for its firmware version and renders it as
    /// `major.minor`, the minor part zero-padded to two hex digits.
    pub fn get_firmware_version(&mut self) -> (r: Result<String, Error>)
        ensures
            r matches Ok(s) ==> exists|major: u8, minor: u8|
                s@ == version_spec(major, minor),
    {
        let data = self.send_packet(CMD_GET_FIRMWARE_VERSION, Vec::new())?;
        if data.len() < 2 {
            return Err(Error::Protocol(ProtocolError::DeviceReportedError));
        }
        let major = data[1];
        let minor = data[0];
        Ok(format_version(major, minor))
    }
}

} // verus!
