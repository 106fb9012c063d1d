//! The card scanning decisions: which system codes to poll, how to read
//! and interpret the identifying field of each card type, and when a
//! card counts as released.
//!
//! The loop around these decisions runs outside the library, on a
//! dedicated worker: it calls [`InternalPasoriReader::scan_card`] (or
//! [`scan_card`]) each cycle, emits what it returns, and during
//! release-wait calls [`release_step`] between its settle delays.

use vstd::prelude::*;

use crate::device::Device;
use crate::chipset::Bitrate;
use crate::domain;
use crate::errors::{CardReadError, Error};
use crate::felica::{BlockCode, Card, PollingRequestCode, PollingResponse, PollingTimeSlot,
    ServiceCode, polling_parse_ok, read_request_spec, service_codes_bytes, block_codes_bytes,
    service_code_bytes, block_code_bytes};
use crate::text::{hex_str_spec, to_hex_string};

verus! {

pub const VENDOR_ID: u16 = 0x054c;
pub const PRODUCT_ID: u16 = 0x06c3;

/// System code of the student id card application area.
pub const STUDENT_CARD_SYSTEM_CODE: u16 = 0x809c;

/// Service holding the student id number.
pub const STUDENT_CARD_SERVICE_CODE: u16 = 0x200b;

/// System code of the transit-fare card application area.
pub const SUICA_SYSTEM_CODE: u16 = 0x0003;

/// Service holding the fare card balance.
pub const SUICA_SERVICE_CODE: u16 = 0x090f;

/// What kind of card was detected, with its identifying value.
#[derive(Debug, Clone, PartialEq, Eq)]
pub enum CardKind {
    Student(u32),
    Suica(String),
}

/// A detected card: the raw card from polling and its interpreted kind.
#[derive(Debug, Clone, PartialEq, Eq)]
pub struct DetectedCard {
    pub card: Card,
    pub kind: CardKind,
}

/// A byte is an ASCII decimal digit.
pub open spec fn is_ascii_digit(b: u8) -> bool {
    0x30 <= b <= 0x39
}

/// Every byte of the sequence is an ASCII decimal digit.
pub open spec fn all_digits(s: Seq<u8>) -> bool {
    forall|i: int| 0 <= i < s.len() ==> is_ascii_digit(#[trigger] s[i])
}

/// The number the ASCII digit sequence denotes, most significant first.
pub open spec fn digits_value(s: Seq<u8>) -> int
    decreases s.len(),
{
    if s.len() == 0 {
        0
    } else {
        digits_value(s.drop_last()) * 10 + (s.last() - 0x30)
    }
}

/// Ten to the given power.
pub open spec fn p10(n: int) -> int
    decreases n,
{
    if n <= 0 {
        1
    } else {
        10 * p10(n - 1)
    }
}

/// Powers of ten are at least one.
proof fn lemma_p10_pos(n: int)
    ensures
        p10(n) >= 1,
    decreases n,
{
    if n > 0 {
        lemma_p10_pos(n - 1);
    }
}

/// Powers of ten are monotone in the exponent.
proof fn lemma_p10_mono(a: int, b: int)
    requires
        a <= b,
    ensures
        p10(a) <= p10(b),
    decreases b - a,
{
    if a < b {
        lemma_p10_mono(a, b - 1);
        lemma_p10_pos(b - 1);
        if b > 0 {
            lemma_p10_pos(a);
        }
    }
}

/// Parses the eight-character numeric id field of a student card block:
/// all eight bytes must be ASCII digits, and the value is the decimal
/// number they spell.
pub fn parse_student_id(field: &[u8]) -> (r: Option<u32>)
    requires
        field@.len() == 8,
    ensures
        match r {
            Some(v) => all_digits(field@) && v == digits_value(field@) && v < 100000000,
            None => !all_digits(field@),
        },
{
    proof {
        assert(p10(0) == 1);
        assert(p10(1) == 10);
        assert(p10(2) == 100);
        assert(p10(3) == 1000);
        assert(p10(4) == 10000);
        assert(p10(5) == 100000);
        assert(p10(6) == 1000000);
        assert(p10(7) == 10000000);
        assert(p10(8) == 100000000);
    }
    let mut acc: u32 = 0;
    let mut i: usize = 0;
    while i < 8
        invariant
            i <= 8,
            field@.len() == 8,
            all_digits(field@.take(i as int)),
            acc == digits_value(field@.take(i as int)),
            acc < p10(i as int),
            p10(7) == 10000000,
            p10(8) == 100000000,
            forall|n: int| 0 <= n < 8 ==> #[trigger] p10(n + 1) == 10 * p10(n),
        decreases 8 - i,
    {
        let b = field[i];
        if !(0x30 <= b && b <= 0x39) {
            proof {
                assert(!is_ascii_digit(field@[i as int]));
            }
            return None;
        }
        proof {
            let t = field@.take(i + 1);
            assert(t.drop_last() =~= field@.take(i as int));
            assert(t.last() == field@[i as int]);
            assert(forall|n: int|
                0 <= n < i + 1 ==> #[trigger] t[n] == field@.take(i as int + 1)[n]);
            assert(digits_value(t) == digits_value(field@.take(i as int)) * 10 + (b - 0x30));
            assert(acc * 10 + (b - 0x30) < p10(i + 1)) by (nonlinear_arith)
                requires
                    acc < p10(i as int),
                    b - 0x30 <= 9,
                    p10(i + 1) == 10 * p10(i as int),
            ;
            assert(all_digits(t)) by {
                assert(forall|n: int| 0 <= n < i ==> t[n] == #[trigger] field@.take(i as int)[n]);
            }
            lemma_p10_mono(i as int, 7);
            assert(acc < 10000000);
        }
        acc = acc * 10 + (b - 0x30) as u32;
        i = i + 1;
    }
    proof {
        assert(field@.take(8) =~= field@);
    }
    Some(acc)
}

/// The little-endian 16-bit value at the balance offset of a fare-card
/// block.
pub fn extract_balance(block: &Vec<u8>) -> (r: u16)
    requires
        block@.len() >= 12,
    ensures
        r == block@[10] + 0x100 * block@[11],
{
    block[10] as u16 + 0x100 * block[11] as u16
}

/// Renders a card id as lower-case hex, two digits per byte.
pub fn idm_to_string(idm: &[u8]) -> (r: String)
    ensures
        r@ == hex_str_spec(idm@),
{
    to_hex_string(idm)
}

/// Compares two card ids.
pub fn idm_eq(a: &[u8; 8], b: &[u8; 8]) -> (r: bool)
    ensures
        r <==> a@ == b@,
{
    let mut i: usize = 0;
    while i < 8
        invariant
            i <= 8,
            forall|t: int| 0 <= t < i ==> a@[t] == b@[t],
        decreases 8 - i,
    {
        if a[i] != b[i] {
            proof {
                assert(a@[i as int] != b@[i as int]);
            }
            return false;
        }
        i = i + 1;
    }
    proof {
        assert(a@ =~= b@);
    }
    true
}

/// The service and block lists of a single-block read, and the proof
/// that its request fits the carrying command.
fn single_block_lists(service_code: u16) -> (r: (Vec<ServiceCode>, Vec<BlockCode>))
    ensures
        r.0@.len() == 1 && r.1@.len() == 1,
        r.0@[0] == ServiceCode(service_code),
        r.1@[0] == (BlockCode { block_code: 0u16, access_mode: 0u8, service_code_list_order: 0u8 }),
        forall|idm: Seq<u8>|
            idm.len() == 8 ==> #[trigger] read_request_spec(idm, r.0@, r.1@).len() == 15,
{
    let mut scs: Vec<ServiceCode> = Vec::new();
    scs.push(ServiceCode::new(service_code));
    let mut bcs: Vec<BlockCode> = Vec::new();
    bcs.push(BlockCode::new(0, None, 0));
    proof {
        assert(scs@.drop_last() =~= Seq::<ServiceCode>::empty());
        assert(service_codes_bytes(scs@)
            =~= service_codes_bytes(Seq::<ServiceCode>::empty()) + service_code_bytes(scs@[0]));
        assert(bcs@.drop_last() =~= Seq::<BlockCode>::empty());
        assert(block_codes_bytes(bcs@)
            =~= block_codes_bytes(Seq::<BlockCode>::empty()) + block_code_bytes(bcs@[0]));
        assert(service_codes_bytes(scs@).len() == 2);
        assert(block_codes_bytes(bcs@).len() == 2);
    }
    (scs, bcs)
}

/// Scans once for a student card: polls its system code and, when a card
/// answers, reads the block holding the eight-digit student id. A failed
/// poll means no card is present; a failed read keeps the loop alive; the
/// only error is a malformed id field, surfaced per card.
pub fn scan_student_card<D: Device>(reader: &mut D) -> (r: Result<Option<(Card, u32)>, Error>)
    ensures
        r matches Ok(Some(p)) ==> p.1 < 100000000 && exists|field: Seq<u8>|
            field.len() == 8 && all_digits(field) && p.1 == digits_value(field),
        r matches Err(e) ==> e == Error::CardRead(CardReadError::MalformedIdField),
{
    let polling_res = match reader.polling(
        Bitrate::Bitrate424kbs,
        Some(STUDENT_CARD_SYSTEM_CODE),
        PollingRequestCode::SystemCode,
        PollingTimeSlot::Slot0,
    ) {
        Ok(res) => res,
        Err(_) => {
            return Ok(None);
        }
    };
    let card = polling_res.card;
    let (service_codes, block_codes) = single_block_lists(STUDENT_CARD_SERVICE_CODE);
    let read_res = match reader.read_without_encryption(&card, &service_codes, &block_codes) {
        Ok(res) => res,
        Err(_) => {
            return Ok(None);
        }
    };
    if read_res.block_data.len() < 1 {
        return Err(Error::CardRead(CardReadError::MalformedIdField));
    }
    let block = &read_res.block_data[0];
    let field = &block.as_slice()[7..15];
    match parse_student_id(field) {
        Some(id) => Ok(Some((card, id))),
        None => Err(Error::CardRead(CardReadError::MalformedIdField)),
    }
}

/// Scans once for a fare card: polls its system code and, when a card
/// answers, reads the balance block (the read itself is what makes
/// wallet devices react). The identity emitted is the card id in hex;
/// the only error is a malformed identifying record, surfaced per card.
pub fn scan_suica_card<D: Device>(reader: &mut D) -> (r: Result<Option<(Card, String)>, Error>)
    ensures
        r matches Ok(Some(p)) ==> p.1@ == hex_str_spec(p.0@.idm),
        r matches Err(e) ==> e == Error::CardRead(CardReadError::MalformedIdField),
{
    let polling_res = match reader.polling(
        Bitrate::Bitrate424kbs,
        Some(SUICA_SYSTEM_CODE),
        PollingRequestCode::SystemCode,
        PollingTimeSlot::Slot0,
    ) {
        Ok(res) => res,
        Err(_) => {
            return Ok(None);
        }
    };
    let card = polling_res.card;
    let idm = card.idm();
    let idm_str = idm_to_string(&idm);
    let (service_codes, block_codes) = single_block_lists(SUICA_SERVICE_CODE);
    let read_res = match reader.read_without_encryption(&card, &service_codes, &block_codes) {
        Ok(res) => res,
        Err(_) => {
            return Ok(None);
        }
    };
    if read_res.block_data.len() < 1 {
        return Err(Error::CardRead(CardReadError::MalformedIdField));
    }
    let block = &read_res.block_data[0];
    let _balance = extract_balance(block);
    Ok(Some((card, idm_str)))
}

/// Scans once for any known card type, student cards first. A failed
/// poll is the normal no-card outcome, never an error: the only error
/// is a malformed identifying field.
pub fn scan_card<D: Device>(reader: &mut D) -> (r: Result<Option<DetectedCard>, Error>)
    ensures
        r matches Ok(Some(d)) ==> match d.kind {
            CardKind::Student(id) => id < 100000000 && exists|field: Seq<u8>|
                field.len() == 8 && all_digits(field) && id == digits_value(field),
            CardKind::Suica(s) => s@ == hex_str_spec(d.card@.idm),
        },
        r matches Err(e) ==> e == Error::CardRead(CardReadError::MalformedIdField),
{
    match scan_student_card(reader) {
        Ok(Some((card, student_id))) => {
            return Ok(Some(DetectedCard { card, kind: CardKind::Student(student_id) }));
        }
        Ok(None) => {}
        Err(e) => {
            return Err(e);
        }
    }
    match scan_suica_card(reader) {
        Ok(Some((card, idm))) => {
            return Ok(Some(DetectedCard { card, kind: CardKind::Suica(idm) }));
        }
        Ok(None) => {}
        Err(e) => {
            return Err(e);
        }
    }
    Ok(None)
}

/// Whether a poll outcome means the card has left the field: no card
/// answered, or a different card answered.
pub fn card_released(current: &Option<Card>, expected_idm: &[u8; 8]) -> (r: bool)
    ensures
        r <==> match current {
            Some(c) => c@.idm != expected_idm@,
            None => true,
        },
{
    match current {
        Some(c) => {
            let current_idm = c.idm();
            !idm_eq(&current_idm, expected_idm)
        }
        None => true,
    }
}

/// One step of release-wait: polls the system code of the detected card
/// once and decides whether it has left the field. The loop around this
/// step repeats it, with a pacing delay, until it returns true, and then
/// applies the settle delay. The step keeps waiting only because an
/// acceptable poll answered with the same card id.
pub fn release_step<D: Device>(reader: &mut D, card: &Card) -> (released: bool)
    ensures
        !released ==> exists|res: Seq<u8>, p: PollingResponse|
            #[trigger] polling_parse_ok(res, PollingRequestCode::SystemCode, p)
                && p.card@.idm == card@.idm,
{
    let polled = reader.polling(
        Bitrate::Bitrate424kbs,
        card.system_code(),
        PollingRequestCode::SystemCode,
        PollingTimeSlot::Slot0,
    );
    let current: Option<Card> = match polled {
        Ok(res) => Some(res.card),
        Err(_) => None,
    };
    let idm = card.idm();
    let released = card_released(&current, &idm);
    proof {
        if !released {
            let p = polled->Ok_0;
            let res = choose|res: Seq<u8>|
                polling_parse_ok(res, PollingRequestCode::SystemCode, p);
            assert(polling_parse_ok(res, PollingRequestCode::SystemCode, p)
                && p.card@.idm == card@.idm);
        }
    }
    released
}

/// The scanning worker's device-facing half: polls every registered
/// system code in priority order and interprets what the cards answer.
pub struct InternalPasoriReader<D: Device> {
    device: D,
}

impl<D: Device> InternalPasoriReader<D> {
    /// Wraps an opened reader device.
    pub fn new(device: D) -> Self {
        InternalPasoriReader { device }
    }

    /// Hands the device back, for shutdown once scanning is over.
    pub fn into_device(self) -> D {
        self.device
    }

    /// One scanning cycle over all card types: polls without a filter,
    /// classifies the card by the system code it reports, and reads the
    /// type-specific identifying field. A failed poll means no card; a
    /// failed student read still emits the card identity without its
    /// student id; a malformed student id field is a card read error; a
    /// failed fare-card read emits nothing.
    pub fn scan_card(&mut self) -> (r: Result<Option<(Card, domain::Card)>, Error>)
        ensures
            r matches Ok(Some(p)) ==> p.1.idm@ == hex_str_spec(p.0@.idm),
            r matches Ok(Some(p)) ==> match p.1.student_id {
                Some(id) => id < 100000000 && exists|field: Seq<u8>|
                    field.len() == 8 && all_digits(field) && id == digits_value(field),
                None => true,
            },
            r matches Ok(Some(p)) ==> !(p.1.student_id is Some && p.1.balance is Some),
            r matches Ok(Some(p)) ==> match p.1.balance {
                Some(b) => b <= 0xffff,
                None => true,
            },
            r matches Err(e) ==> e == Error::CardRead(CardReadError::MalformedIdField),
    {
        let polling_res = match self.device.polling(
            Bitrate::Bitrate424kbs,
            None,
            PollingRequestCode::SystemCode,
            PollingTimeSlot::Slot0,
        ) {
            Ok(res) => res,
            Err(_) => {
                return Ok(None);
            }
        };
        let felica_card = polling_res.card;
        let idm_arr = felica_card.idm();
        let idm = idm_to_string(&idm_arr);
        let system_code = match felica_card.system_code() {
            Some(code) => code,
            None => {
                let card = domain::Card { idm, student_id: None, balance: None };
                return Ok(Some((felica_card, card)));
            }
        };
        if system_code == STUDENT_CARD_SYSTEM_CODE {
            let (service_codes, block_codes) = single_block_lists(STUDENT_CARD_SERVICE_CODE);
            let read_res = match self.device.read_without_encryption(
                &felica_card,
                &service_codes,
                &block_codes,
            ) {
                Ok(res) => res,
                Err(_) => {
                    let card = domain::Card { idm, student_id: None, balance: None };
                    return Ok(Some((felica_card, card)));
                }
            };
            if read_res.block_data.len() < 1 {
                return Err(Error::CardRead(CardReadError::MalformedIdField));
            }
            let block = &read_res.block_data[0];
            let field = &block.as_slice()[7..15];
            match parse_student_id(field) {
                Some(student_id) => {
                    let card = domain::Card { idm, student_id: Some(student_id), balance: None };
                    Ok(Some((felica_card, card)))
                }
                None => Err(Error::CardRead(CardReadError::MalformedIdField)),
            }
        } else if system_code == SUICA_SYSTEM_CODE {
            let (service_codes, block_codes) = single_block_lists(SUICA_SERVICE_CODE);
            let read_res = match self.device.read_without_encryption(
                &felica_card,
                &service_codes,
                &block_codes,
            ) {
                Ok(res) => res,
                Err(_) => {
                    return Ok(None);
                }
            };
            if read_res.block_data.len() < 1 {
                return Ok(None);
            }
            let block = &read_res.block_data[0];
            let balance = extract_balance(block);
            let card = domain::Card { idm, student_id: None, balance: Some(balance as u32) };
            Ok(Some((felica_card, card)))
        } else {
            let card = domain::Card { idm, student_id: None, balance: None };
            Ok(Some((felica_card, card)))
        }
    }

    /// One step of this reader's release-wait: it keeps waiting only
    /// because an acceptable poll answered with the same card id.
    pub fn wait_release_step(&mut self, felica_card: &Card) -> (released: bool)
        ensures
            !released ==> exists|res: Seq<u8>, p: PollingResponse|
                #[trigger] polling_parse_ok(res, PollingRequestCode::SystemCode, p)
                    && p.card@.idm == felica_card@.idm,
    {
        release_step(&mut self.device, felica_card)
    }
}

} // verus!
