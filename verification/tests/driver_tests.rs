use std::collections::VecDeque;
use std::sync::{Arc, Mutex};

use pasori::chipset::{Bitrate, Chipset};
use pasori::codec::Packet;
use pasori::device::{Device, RCS380};
use pasori::errors::TransportError;
use pasori::scan::{
    idm_to_string, scan_card, scan_student_card, CardKind, InternalPasoriReader,
};
use pasori::transport::Transport;

/// A scripted device: answers reads from a fixed queue and records every
/// write in a log the test keeps a handle on.
struct ScriptedTransport {
    reads: VecDeque<Result<Vec<u8>, TransportError>>,
    writes: Arc<Mutex<Vec<Vec<u8>>>>,
}

impl ScriptedTransport {
    fn new(reads: VecDeque<Result<Vec<u8>, TransportError>>) -> (Self, Arc<Mutex<Vec<Vec<u8>>>>) {
        let writes = Arc::new(Mutex::new(Vec::new()));
        (ScriptedTransport { reads, writes: writes.clone() }, writes)
    }
}

impl Transport for ScriptedTransport {
    fn read(&mut self, _timeout_ms: Option<u64>) -> Result<Vec<u8>, TransportError> {
        self.reads.pop_front().unwrap_or(Err(TransportError::Timeout))
    }

    fn write(&mut self, data: &[u8], _timeout_ms: Option<u64>) -> Result<(), TransportError> {
        self.writes.lock().unwrap().push(data.to_vec());
        Ok(())
    }
}

fn ack_bytes() -> Vec<u8> {
    vec![0x00, 0x00, 0xff, 0x00, 0xff, 0x00]
}

fn err_bytes() -> Vec<u8> {
    vec![0x00, 0x00, 0xff, 0xff, 0xff]
}

/// A response frame as the device would send it (marker 0xd7).
fn response_frame(cmd_code: u8, payload: &[u8]) -> Vec<u8> {
    let mut body = vec![0xd7, cmd_code];
    body.extend_from_slice(payload);
    let len = body.len() as u16;
    let len_field = [(len & 0xff) as u8, (len >> 8) as u8];
    let mut buf = vec![0x00, 0x00, 0xff, 0xff, 0xff];
    buf.extend_from_slice(&len_field);
    buf.push(Packet::checksum(&len_field));
    buf.extend_from_slice(&body);
    buf.push(Packet::checksum(&body));
    buf
}

/// The InCommRF reply wrapping a card's answer: four zero status bytes,
/// one length byte, then the card's bytes.
fn comm_rf_reply(card_answer: &[u8]) -> Vec<u8> {
    let mut payload = vec![0x00, 0x00, 0x00, 0x00, card_answer.len() as u8 + 1];
    payload.extend_from_slice(card_answer);
    response_frame(0x05, &payload)
}

/// Scripts one successful exchange answering `cmd_code` with `payload`.
fn push_exchange(reads: &mut VecDeque<Result<Vec<u8>, TransportError>>, cmd_code: u8, payload: &[u8]) {
    reads.push_back(Ok(ack_bytes()));
    reads.push_back(Ok(response_frame(cmd_code, payload)));
}

/// Scripts the chipset init sequence: the drained read fails, then
/// SetCommandType and SwitchRF are acknowledged with zero.
fn push_init(reads: &mut VecDeque<Result<Vec<u8>, TransportError>>) {
    reads.push_back(Err(TransportError::Timeout));
    push_exchange(reads, 0x2b, &[0x00]);
    push_exchange(reads, 0x07, &[0x00]);
}

/// Scripts the two setting exchanges of one polling call, without the
/// InCommRF answer itself.
fn push_polling_prelude(reads: &mut VecDeque<Result<Vec<u8>, TransportError>>) {
    push_exchange(reads, 0x01, &[0x00]);
    push_exchange(reads, 0x03, &[0x00]);
}

/// The card's answer to polling: length, response code 0x01, IDm, PMm,
/// and optionally the two request-result bytes.
fn polling_answer(idm: [u8; 8], pmm: [u8; 8], trailing: Option<[u8; 2]>) -> Vec<u8> {
    let len = if trailing.is_some() { 0x14 } else { 0x12 };
    let mut res = vec![len, 0x01];
    res.extend_from_slice(&idm);
    res.extend_from_slice(&pmm);
    if let Some(t) = trailing {
        res.extend_from_slice(&t);
    }
    res
}

#[test]
fn chipset_init_writes_reset_and_settings() {
    let mut reads = VecDeque::new();
    push_init(&mut reads);
    let (transport, writes) = ScriptedTransport::new(reads);
    let chipset = Chipset::new(transport).unwrap();
    drop(chipset);
    let log = writes.lock().unwrap();
    // soft reset with the raw Ack bytes, then SetCommandType(1), then
    // SwitchRF(off), each as a framed command
    assert_eq!(log[0], ack_bytes());
    assert_eq!(log[1], Packet::data(0x2a, vec![0x01]).serialize());
    assert_eq!(log[2], Packet::data(0x06, vec![0x00]).serialize());
    assert_eq!(log.len(), 3);
}

#[test]
fn chipset_get_firmware_version_formats_hex() {
    let mut reads = VecDeque::new();
    push_init(&mut reads);
    push_exchange(&mut reads, 0x21, &[0x2d, 0x01]);
    let (transport, _writes) = ScriptedTransport::new(reads);
    let mut chipset = Chipset::new(transport).unwrap();
    assert_eq!(chipset.get_firmware_version().unwrap(), "1.2d");
}

#[test]
fn chipset_firmware_version_pads_minor() {
    let mut reads = VecDeque::new();
    push_init(&mut reads);
    push_exchange(&mut reads, 0x21, &[0x00, 0x1a]);
    let (transport, _writes) = ScriptedTransport::new(reads);
    let mut chipset = Chipset::new(transport).unwrap();
    assert_eq!(chipset.get_firmware_version().unwrap(), "1a.00");
}

#[test]
fn chipset_set_rf_rejects_nonzero_reply() {
    let mut reads = VecDeque::new();
    push_init(&mut reads);
    push_exchange(&mut reads, 0x01, &[0x01]);
    let (transport, _writes) = ScriptedTransport::new(reads);
    let mut chipset = Chipset::new(transport).unwrap();
    assert!(chipset.in_set_rf(Bitrate::Bitrate424kbs, None).is_err());
}

#[test]
fn polling_end_to_end_yields_card_with_system_code() {
    let idm = [0x01, 0x02, 0x03, 0x04, 0x05, 0x06, 0x07, 0x08];
    let pmm = [0xa0, 0xa1, 0xa2, 0xa3, 0xa4, 0xa5, 0xa6, 0xa7];
    let mut reads = VecDeque::new();
    push_init(&mut reads);
    push_polling_prelude(&mut reads);
    reads.push_back(Ok(ack_bytes()));
    reads.push_back(Ok(comm_rf_reply(&polling_answer(idm, pmm, Some([0x80, 0x9c])))));
    let (transport, writes) = ScriptedTransport::new(reads);
    let mut device = RCS380::new(transport).unwrap();
    let res = device
        .polling(
            Bitrate::Bitrate424kbs,
            Some(0x809c),
            pasori::felica::PollingRequestCode::SystemCode,
            pasori::felica::PollingTimeSlot::Slot0,
        )
        .unwrap();
    assert_eq!(res.card.idm(), idm);
    assert_eq!(res.card.pmm(), pmm);
    assert_eq!(res.card.system_code(), Some(0x809c));
    // the InCommRF command carried the 10 ms timeout (110 tenths) and
    // the polling request bytes
    let log = writes.lock().unwrap();
    let comm = log.iter().find(|w| w.len() > 9 && w[9] == 0x04).unwrap();
    assert_eq!(&comm[10..18], &[0x6e, 0x00, 0x06, 0x00, 0x80, 0x9c, 0x01, 0x00]);
}

#[test]
fn polling_failure_means_no_card() {
    let mut reads = VecDeque::new();
    push_init(&mut reads);
    push_polling_prelude(&mut reads);
    reads.push_back(Ok(ack_bytes()));
    reads.push_back(Ok(err_bytes()));
    let (transport, _writes) = ScriptedTransport::new(reads);
    let mut device = RCS380::new(transport).unwrap();
    let scanned = scan_student_card(&mut device).unwrap();
    assert!(scanned.is_none());
}

/// The answer of a student card to the single-block read: the id digits
/// sit at bytes 7..15 of the block.
fn student_read_answer(idm: [u8; 8], digits: &[u8; 8]) -> Vec<u8> {
    let mut block = [0u8; 16];
    block[7..15].copy_from_slice(digits);
    let mut res = vec![29, 0x07];
    res.extend_from_slice(&idm);
    res.extend_from_slice(&[0x00, 0x00, 0x01]);
    res.extend_from_slice(&block);
    res
}

#[test]
fn scan_student_card_reads_id() {
    let idm = [1, 2, 3, 4, 5, 6, 7, 8];
    let pmm = [0; 8];
    let mut reads = VecDeque::new();
    push_init(&mut reads);
    push_polling_prelude(&mut reads);
    reads.push_back(Ok(ack_bytes()));
    reads.push_back(Ok(comm_rf_reply(&polling_answer(idm, pmm, Some([0x80, 0x9c])))));
    reads.push_back(Ok(ack_bytes()));
    reads.push_back(Ok(comm_rf_reply(&student_read_answer(idm, b"12345678"))));
    let (transport, _writes) = ScriptedTransport::new(reads);
    let mut device = RCS380::new(transport).unwrap();
    let (card, student_id) = scan_student_card(&mut device).unwrap().unwrap();
    assert_eq!(student_id, 12345678);
    assert_eq!(card.idm(), idm);
}

#[test]
fn scan_student_card_rejects_malformed_id_field() {
    let idm = [1, 2, 3, 4, 5, 6, 7, 8];
    let mut reads = VecDeque::new();
    push_init(&mut reads);
    push_polling_prelude(&mut reads);
    reads.push_back(Ok(ack_bytes()));
    reads.push_back(Ok(comm_rf_reply(&polling_answer(idm, [0; 8], Some([0x80, 0x9c])))));
    reads.push_back(Ok(ack_bytes()));
    reads.push_back(Ok(comm_rf_reply(&student_read_answer(idm, b"12x45678"))));
    let (transport, _writes) = ScriptedTransport::new(reads);
    let mut device = RCS380::new(transport).unwrap();
    assert_eq!(
        scan_student_card(&mut device),
        Err(pasori::errors::Error::CardRead(
            pasori::errors::CardReadError::MalformedIdField
        ))
    );
}

#[test]
fn scan_card_detects_student_kind() {
    let idm = [1, 2, 3, 4, 5, 6, 7, 8];
    let mut reads = VecDeque::new();
    push_init(&mut reads);
    push_polling_prelude(&mut reads);
    reads.push_back(Ok(ack_bytes()));
    reads.push_back(Ok(comm_rf_reply(&polling_answer(idm, [0; 8], Some([0x80, 0x9c])))));
    reads.push_back(Ok(ack_bytes()));
    reads.push_back(Ok(comm_rf_reply(&student_read_answer(idm, b"00654321"))));
    let (transport, _writes) = ScriptedTransport::new(reads);
    let mut device = RCS380::new(transport).unwrap();
    let detected = scan_card(&mut device).unwrap().unwrap();
    assert_eq!(detected.kind, CardKind::Student(654321));
}

#[test]
fn internal_reader_reads_suica_balance() {
    let idm = [0x11, 0x22, 0x33, 0x44, 0x55, 0x66, 0x77, 0x88];
    let mut reads = VecDeque::new();
    push_init(&mut reads);
    push_polling_prelude(&mut reads);
    reads.push_back(Ok(ack_bytes()));
    reads.push_back(Ok(comm_rf_reply(&polling_answer(idm, [0; 8], Some([0x00, 0x03])))));
    let mut block = [0u8; 16];
    block[10] = 0xe8;
    block[11] = 0x03;
    let mut res = vec![29, 0x07];
    res.extend_from_slice(&idm);
    res.extend_from_slice(&[0x00, 0x00, 0x01]);
    res.extend_from_slice(&block);
    reads.push_back(Ok(ack_bytes()));
    reads.push_back(Ok(comm_rf_reply(&res)));
    let (transport, _writes) = ScriptedTransport::new(reads);
    let device = RCS380::new(transport).unwrap();
    let mut reader = InternalPasoriReader::new(device);
    let (felica_card, card) = reader.scan_card().unwrap().unwrap();
    assert_eq!(felica_card.idm(), idm);
    assert_eq!(card.idm, "1122334455667788");
    assert_eq!(card.balance, Some(1000));
    assert_eq!(card.student_id, None);
}

#[test]
fn release_wait_returns_only_after_absent_poll() {
    let card_a = pasori::felica::Card::new(
        [1, 2, 3, 4, 5, 6, 7, 8],
        [0; 8],
        Some(0x809c),
    );
    let mut reads = VecDeque::new();
    push_init(&mut reads);
    // three polls answered by the same card, then one answered by nothing
    for _ in 0..3 {
        push_polling_prelude(&mut reads);
        reads.push_back(Ok(ack_bytes()));
        reads.push_back(Ok(comm_rf_reply(&polling_answer(
            card_a.idm(),
            [0; 8],
            Some([0x80, 0x9c]),
        ))));
    }
    push_polling_prelude(&mut reads);
    reads.push_back(Ok(ack_bytes()));
    reads.push_back(Ok(err_bytes()));
    let (transport, writes) = ScriptedTransport::new(reads);
    let device = RCS380::new(transport).unwrap();
    let mut reader = InternalPasoriReader::new(device);
    let mut steps = 0;
    loop {
        steps += 1;
        if reader.wait_release_step(&card_a) {
            break;
        }
        assert!(steps < 10, "release-wait did not terminate");
    }
    assert_eq!(steps, 4);
    // exactly four polling commands crossed the wire
    let polls = writes
        .lock()
        .unwrap()
        .iter()
        .filter(|w| w.len() > 9 && w[9] == 0x04)
        .count();
    assert_eq!(polls, 4);
}

#[test]
fn release_wait_ends_when_another_card_answers() {
    let card_a = pasori::felica::Card::new([1; 8], [0; 8], Some(0x809c));
    let mut reads = VecDeque::new();
    push_init(&mut reads);
    push_polling_prelude(&mut reads);
    reads.push_back(Ok(ack_bytes()));
    reads.push_back(Ok(comm_rf_reply(&polling_answer([2; 8], [0; 8], Some([0x80, 0x9c])))));
    let (transport, _writes) = ScriptedTransport::new(reads);
    let device = RCS380::new(transport).unwrap();
    let mut reader = InternalPasoriReader::new(device);
    assert!(reader.wait_release_step(&card_a));
}

#[test]
fn internal_reader_passes_unknown_system_code_through() {
    let idm = [0xab; 8];
    let mut reads = VecDeque::new();
    push_init(&mut reads);
    push_polling_prelude(&mut reads);
    reads.push_back(Ok(ack_bytes()));
    reads.push_back(Ok(comm_rf_reply(&polling_answer(idm, [0; 8], Some([0x12, 0x34])))));
    let (transport, _writes) = ScriptedTransport::new(reads);
    let device = RCS380::new(transport).unwrap();
    let mut reader = InternalPasoriReader::new(device);
    let (_felica_card, card) = reader.scan_card().unwrap().unwrap();
    assert_eq!(card.idm, "abababababababab");
    assert_eq!(card.student_id, None);
    assert_eq!(card.balance, None);
}

#[test]
fn idm_renders_as_lowercase_hex() {
    assert_eq!(idm_to_string(&[0x01, 0xab, 0xcd, 0xef]), "01abcdef");
    assert_eq!(idm_to_string(&[]), "");
}
