//! FeliCa card-level commands: discovery polling and unencrypted block
//! reads, with the dynamic response timeout derived from the card's
//! timing parameters.

use vstd::prelude::*;

use crate::errors::{Error, ProtocolError};

verus! {

/// A card discovered by polling: its unique id, its manufacturer timing
/// parameters, and, when polling asked for it, its current system code.
/// Immutable once produced: only polling constructs one.
#[derive(Debug, Clone, Copy, PartialEq, Eq)]
pub struct Card {
    idm: [u8; 8],
    pmm: [u8; 8],
    system_code: Option<u16>,
}

/// Mathematical model of a card.
pub struct CardModel {
    pub idm: Seq<u8>,
    pub pmm: Seq<u8>,
    pub system_code: Option<u16>,
}

impl View for Card {
    type V = CardModel;

    closed spec fn view(&self) -> CardModel {
        CardModel { idm: self.idm@, pmm: self.pmm@, system_code: self.system_code }
    }
}

impl Card {
    pub fn new(idm: [u8; 8], pmm: [u8; 8], system_code: Option<u16>) -> (r: Card)
        ensures
            r@.idm == idm@ && r@.pmm == pmm@ && r@.system_code == system_code,
    {
        Card { idm, pmm, system_code }
    }

    /// The unique card id returned on every successful poll.
    pub fn idm(&self) -> (r: [u8; 8])
        ensures
            r@ == self@.idm,
    {
        self.idm
    }

    /// The manufacturer parameter block encoding timing capabilities.
    pub fn pmm(&self) -> (r: [u8; 8])
        ensures
            r@ == self@.pmm,
    {
        self.pmm
    }

    /// The card's current system code, when polling requested it.
    pub fn system_code(&self) -> (r: Option<u16>)
        ensures
            r == self@.system_code,
    {
        self.system_code
    }
}

/// A 16-bit service code addressing a data service of the card.
#[derive(Debug, Clone, Copy, PartialEq, Eq)]
pub struct ServiceCode(pub u16);

/// The little-endian wire bytes of a service code.
pub open spec fn service_code_bytes(sc: ServiceCode) -> Seq<u8> {
    seq![(sc.0 % 0x100) as u8, (sc.0 / 0x100) as u8]
}

impl ServiceCode {
    pub fn new(service_code: u16) -> (r: ServiceCode)
        ensures
            r.0 == service_code,
    {
        ServiceCode(service_code)
    }

    /// Serializes the code in little-endian order.
    pub fn to_bytes(self) -> (r: [u8; 2])
        ensures
            r@ == service_code_bytes(self),
    {
        let bytes = [(self.0 % 0x100) as u8, (self.0 / 0x100) as u8];
        proof {
            assert(bytes@ =~= service_code_bytes(self));
        }
        bytes
    }
}

/// A block address within a service: block index, access mode, and the
/// position of its service code in the request's service code list.
#[derive(Debug, Clone, Copy, PartialEq, Eq)]
pub struct BlockCode {
    pub block_code: u16,
    pub access_mode: u8,
    pub service_code_list_order: u8,
}

/// The wire bytes of a block code: a leading byte packing the access
/// mode and list order, then the block index. A short index fits one
/// byte and leaves the top bit of the leading byte clear; a long index
/// sets the top bit and follows in little-endian order.
pub open spec fn block_code_bytes(b: BlockCode) -> Seq<u8> {
    let mode_bits = ((b.access_mode & 0x07) << 4) | (b.service_code_list_order & 0x0f);
    if b.block_code < 0x100 {
        seq![mode_bits, b.block_code as u8]
    } else {
        seq![mode_bits | 0x80u8, (b.block_code % 0x100) as u8, (b.block_code / 0x100) as u8]
    }
}

impl BlockCode {
    /// A block code; a missing access mode means mode zero.
    pub fn new(block_code: u16, access_mode: Option<u8>, service_code_list_order: u8) -> (r: BlockCode)
        ensures
            r.block_code == block_code,
            r.access_mode == (match access_mode {
                Some(m) => m,
                None => 0u8,
            }),
            r.service_code_list_order == service_code_list_order,
    {
        let access_mode = match access_mode {
            Some(m) => m,
            None => 0,
        };
        BlockCode { block_code, access_mode, service_code_list_order }
    }

    /// Serializes the block code: two bytes for a short index with the
    /// top bit of the leading byte clear, three bytes for a long index
    /// with the top bit set and the index little-endian.
    pub fn to_bytes(self) -> (r: Vec<u8>)
        ensures
            r@ == block_code_bytes(self),
    {
        let mode_bits = ((self.access_mode & 0x07) << 4) | (self.service_code_list_order & 0x0f);
        let mut bytes: Vec<u8> = Vec::new();
        if self.block_code < 0x100 {
            bytes.push(mode_bits);
            bytes.push((self.block_code % 0x100) as u8);
            proof {
                assert(self.block_code % 0x100 == self.block_code as int);
                assert(bytes@ =~= block_code_bytes(self));
            }
        } else {
            bytes.push(mode_bits | 0x80);
            bytes.push((self.block_code % 0x100) as u8);
            bytes.push((self.block_code / 0x100) as u8);
            proof {
                assert(bytes@ =~= block_code_bytes(self));
            }
        }
        bytes
    }
}

/// What extra data a polling request asks the card for.
#[derive(Debug, Clone, Copy, PartialEq, Eq)]
pub enum PollingRequestCode {
    NoRequest,
    SystemCode,
    TransmissionCapability,
}

/// The wire byte of a polling request code.
pub open spec fn request_code_spec(rc: PollingRequestCode) -> u8 {
    match rc {
        PollingRequestCode::NoRequest => 0x00u8,
        PollingRequestCode::SystemCode => 0x01u8,
        PollingRequestCode::TransmissionCapability => 0x02u8,
    }
}

impl PollingRequestCode {
    pub fn code(self) -> (r: u8)
        ensures
            r == request_code_spec(self),
    {
        match self {
            PollingRequestCode::NoRequest => 0x00,
            PollingRequestCode::SystemCode => 0x01,
            PollingRequestCode::TransmissionCapability => 0x02,
        }
    }
}

/// The time slot count a polling request allows for card answers.
#[derive(Debug, Clone, Copy, PartialEq, Eq)]
pub enum PollingTimeSlot {
    Slot0,
    Slot1,
    Slot3,
    Slot7,
    Slot15,
}

/// The wire byte of a polling time slot.
pub open spec fn time_slot_spec(ts: PollingTimeSlot) -> u8 {
    match ts {
        PollingTimeSlot::Slot0 => 0x00u8,
        PollingTimeSlot::Slot1 => 0x01u8,
        PollingTimeSlot::Slot3 => 0x03u8,
        PollingTimeSlot::Slot7 => 0x07u8,
        PollingTimeSlot::Slot15 => 0x0fu8,
    }
}

impl PollingTimeSlot {
    pub fn code(self) -> (r: u8)
        ensures
            r == time_slot_spec(self),
    {
        match self {
            PollingTimeSlot::Slot0 => 0x00,
            PollingTimeSlot::Slot1 => 0x01,
            PollingTimeSlot::Slot3 => 0x03,
            PollingTimeSlot::Slot7 => 0x07,
            PollingTimeSlot::Slot15 => 0x0f,
        }
    }
}

/// A successful poll: the discovered card and the raw two-byte request
/// result, when the response carried one.
#[derive(Debug, Clone, Copy, PartialEq, Eq)]
pub struct PollingResponse {
    pub card: Card,
    pub request_result: Option<u16>,
}

/// A successful unencrypted read: the two status flags (zero here by
/// construction) and the 16-byte block records in request order.
#[derive(Debug, Clone, PartialEq, Eq)]
pub struct ReadWithoutEncryptionResponse {
    pub status_flag1: u8,
    pub status_flag2: u8,
    pub block_data: Vec<Vec<u8>>,
}

/// The card-level polling request: a leading zero byte, the system code
/// filter big-endian (absent means accept any, 0xffff), the request
/// code and the time slot.
pub open spec fn polling_request_spec(
    system_code: Option<u16>,
    rc: PollingRequestCode,
    ts: PollingTimeSlot,
) -> Seq<u8> {
    let sc = match system_code {
        Some(c) => c,
        None => 0xffffu16,
    };
    seq![0x00u8, (sc / 0x100) as u8, (sc % 0x100) as u8, request_code_spec(rc), time_slot_spec(ts)]
}

/// Builds the polling request bytes.
pub fn build_polling_request(
    system_code: Option<u16>,
    request_code: PollingRequestCode,
    time_slot: PollingTimeSlot,
) -> (r: Vec<u8>)
    ensures
        r@ == polling_request_spec(system_code, request_code, time_slot),
{
    let sc = match system_code {
        Some(c) => c,
        None => 0xffff,
    };
    let mut req: Vec<u8> = Vec::new();
    req.push(0x00);
    req.push((sc / 0x100) as u8);
    req.push((sc % 0x100) as u8);
    req.push(request_code.code());
    req.push(time_slot.code());
    proof {
        assert(req@ =~= polling_request_spec(system_code, request_code, time_slot));
    }
    req
}

/// A polling response is acceptable when its first byte states its own
/// length and its second byte is the polling response code 0x01, with
/// the 8-byte IDm and PMm present.
pub open spec fn polling_response_ok(res: Seq<u8>) -> bool {
    &&& res.len() >= 18
    &&& res[0] == res.len() % 0x100
    &&& res[1] == 0x01
}

/// The two trailing request-result bytes, big-endian, present exactly
/// when the response is 20 bytes long.
pub open spec fn polling_trailing(res: Seq<u8>) -> Option<u16> {
    if res.len() == 0x14 {
        Some((res[18] * 0x100 + res[19]) as u16)
    } else {
        None
    }
}

/// How a parsed polling response relates to the response bytes: the
/// card's id and timing parameters are the two 8-byte fields, and the
/// system code is the trailing request result exactly when the request
/// asked the card for its system code.
pub open spec fn polling_parse_ok(res: Seq<u8>, rc: PollingRequestCode, p: PollingResponse) -> bool {
    &&& polling_response_ok(res)
    &&& p.card@.idm == res.subrange(2, 10)
    &&& p.card@.pmm == res.subrange(10, 18)
    &&& p.request_result == polling_trailing(res)
    &&& p.card@.system_code == (if rc is SystemCode {
        polling_trailing(res)
    } else {
        None::<u16>
    })
}

/// Interprets the raw bytes a card answered to a polling request.
/// Accepts exactly the responses `polling_response_ok` allows and
/// produces the card `polling_parse_ok` describes.
pub fn parse_polling_response(res: &Vec<u8>, request_code: PollingRequestCode) -> (r: Result<
    PollingResponse,
    Error,
>)
    ensures
        match r {
            Ok(p) => polling_parse_ok(res@, request_code, p),
            Err(e) => !polling_response_ok(res@) && if res@.len() < 18
                || res@[0] != res@.len() % 0x100 {
                e == Error::Protocol(ProtocolError::DeviceReportedError)
            } else {
                e == Error::Protocol(ProtocolError::ResponseCodeMismatch)
            },
        },
{
    if res.len() < 18 || res[0] as usize != res.len() % 0x100 {
        return Err(Error::Protocol(ProtocolError::DeviceReportedError));
    }
    if res[1] != 0x01 {
        return Err(Error::Protocol(ProtocolError::ResponseCodeMismatch));
    }
    let idm = [res[2], res[3], res[4], res[5], res[6], res[7], res[8], res[9]];
    let pmm = [res[10], res[11], res[12], res[13], res[14], res[15], res[16], res[17]];
    proof {
        assert(idm@ =~= res@.subrange(2, 10));
        assert(pmm@ =~= res@.subrange(10, 18));
    }
    let request_result: Option<u16> = if res.len() == 0x14 {
        Some((res[18] as u16) * 0x100 + res[19] as u16)
    } else {
        None
    };
    let system_code: Option<u16> = match request_code {
        PollingRequestCode::SystemCode => request_result,
        _ => None,
    };
    Ok(PollingResponse { card: Card { idm, pmm, system_code }, request_result })
}

/// The little-endian service code bytes of a request's service list, in
/// order.
pub open spec fn service_codes_bytes(s: Seq<ServiceCode>) -> Seq<u8>
    decreases s.len(),
{
    if s.len() == 0 {
        Seq::empty()
    } else {
        service_codes_bytes(s.drop_last()) + service_code_bytes(s.last())
    }
}

/// The block code bytes of a request's block list, in order.
pub open spec fn block_codes_bytes(s: Seq<BlockCode>) -> Seq<u8>
    decreases s.len(),
{
    if s.len() == 0 {
        Seq::empty()
    } else {
        block_codes_bytes(s.drop_last()) + block_code_bytes(s.last())
    }
}

/// The card-level read request: command code 0x06, the card's IDm, the
/// counted service code list, then the counted block code list.
pub open spec fn read_request_spec(idm: Seq<u8>, scs: Seq<ServiceCode>, bcs: Seq<BlockCode>) -> Seq<u8> {
    seq![0x06u8] + idm + seq![scs.len() as u8] + service_codes_bytes(scs) + seq![bcs.len() as u8]
        + block_codes_bytes(bcs)
}

/// Builds the ReadWithoutEncryption request bytes for a card.
pub fn build_read_request(card: &Card, service_codes: &Vec<ServiceCode>, block_codes: &Vec<BlockCode>) -> (r:
    Vec<u8>)
    requires
        service_codes@.len() <= 0xff,
        block_codes@.len() <= 0xff,
    ensures
        r@ == read_request_spec(card@.idm, service_codes@, block_codes@),
{
    let mut req: Vec<u8> = Vec::new();
    req.push(0x06);
    let idm = card.idm();
    req.push(idm[0]);
    req.push(idm[1]);
    req.push(idm[2]);
    req.push(idm[3]);
    req.push(idm[4]);
    req.push(idm[5]);
    req.push(idm[6]);
    req.push(idm[7]);
    req.push(service_codes.len() as u8);
    let ghost prefix1 = seq![0x06u8] + card@.idm + seq![service_codes@.len() as u8];
    proof {
        assert(req@ =~= prefix1);
    }
    let mut i: usize = 0;
    while i < service_codes.len()
        invariant
            i <= service_codes@.len(),
            req@ == prefix1 + service_codes_bytes(service_codes@.take(i as int)),
        decreases service_codes@.len() - i,
    {
        let b = service_codes[i].to_bytes();
        req.push(b[0]);
        req.push(b[1]);
        proof {
            let t = service_codes@.take(i + 1);
            assert(t.drop_last() =~= service_codes@.take(i as int));
            assert(t.last() == service_codes@[i as int]);
            assert(req@ =~= prefix1 + service_codes_bytes(t));
        }
        i = i + 1;
    }
    proof {
        assert(service_codes@.take(service_codes@.len() as int) =~= service_codes@);
    }
    req.push(block_codes.len() as u8);
    let ghost prefix2 = prefix1 + service_codes_bytes(service_codes@) + seq![block_codes@.len() as u8];
    proof {
        assert(req@ =~= prefix2);
    }
    let mut j: usize = 0;
    while j < block_codes.len()
        invariant
            j <= block_codes@.len(),
            req@ == prefix2 + block_codes_bytes(block_codes@.take(j as int)),
        decreases block_codes@.len() - j,
    {
        let b = block_codes[j].to_bytes();
        let mut k: usize = 0;
        while k < b.len()
            invariant
                k <= b@.len(),
                req@ == prefix2 + block_codes_bytes(block_codes@.take(j as int)) + b@.take(k as int),
                j < block_codes@.len(),
                b@ == block_code_bytes(block_codes@[j as int]),
            decreases b@.len() - k,
        {
            req.push(b[k]);
            proof {
                assert(b@.take(k + 1) =~= b@.take(k as int).push(b@[k as int]));
                assert(req@ =~= prefix2 + block_codes_bytes(block_codes@.take(j as int)) + b@.take(k + 1));
            }
            k = k + 1;
        }
        proof {
            let t = block_codes@.take(j + 1);
            assert(t.drop_last() =~= block_codes@.take(j as int));
            assert(t.last() == block_codes@[j as int]);
            assert(b@.take(b@.len() as int) =~= b@);
            assert(req@ =~= prefix2 + block_codes_bytes(t));
        }
        j = j + 1;
    }
    proof {
        assert(block_codes@.take(block_codes@.len() as int) =~= block_codes@);
        assert(req@ =~= read_request_spec(card@.idm, service_codes@, block_codes@));
    }
    req
}

/// Four to the power of a two-bit exponent.
pub open spec fn pow4(e: int) -> int {
    if e == 0 {
        1
    } else if e == 1 {
        4
    } else if e == 2 {
        16
    } else {
        64
    }
}

/// One FeliCa timing unit, in nanoseconds: 256 x 16 / 13.56 us.
pub const TIMING_UNIT_NS: u64 = 302065;

/// The response timeout of an unencrypted read, in microseconds,
/// computed from byte 4 of the card's PMm: with a its low three bits, b
/// the next three and e the top two, the card may take
/// unit x ((b+1) x blocks + (a+1)) x 4^e.
pub open spec fn read_timeout_us_spec(pmm_byte: u8, blocks: int) -> int {
    let a = (pmm_byte % 8) as int;
    let b = ((pmm_byte / 8) % 8) as int;
    let e = (pmm_byte / 64) as int;
    TIMING_UNIT_NS * ((b + 1) * blocks + (a + 1)) * pow4(e) / 1000
}

/// Computes the read timeout from the card's timing byte and the number
/// of blocks requested.
pub fn compute_read_timeout_us(pmm_byte: u8, block_count: usize) -> (r: u64)
    requires
        block_count <= 0xff,
    ensures
        r == read_timeout_us_spec(pmm_byte, block_count as int),
{
    let a = (pmm_byte % 8) as u64;
    let b = ((pmm_byte / 8) % 8) as u64;
    let e = pmm_byte / 64;
    let p4: u64 = if e == 0 {
        1
    } else if e == 1 {
        4
    } else if e == 2 {
        16
    } else {
        64
    };
    let bc = block_count as u64;
    assert((b + 1) * bc <= 2040) by (nonlinear_arith)
        requires
            b <= 7 && bc <= 0xff,
    ;
    let k: u64 = (b + 1) * bc + (a + 1);
    assert(TIMING_UNIT_NS * k * p4 <= 0x9_0000_0000_0000i128) by (nonlinear_arith)
        requires
            0 <= k <= 2048 && 1 <= p4 <= 64,
    ;
    let ns: u64 = TIMING_UNIT_NS * k * p4;
    ns / 1000
}

/// The read timeout is monotonically non-decreasing in the number of
/// blocks requested, for a fixed timing byte. (It is deterministic by
/// construction: it is a function.)
pub proof fn lemma_read_timeout_monotonic(pmm_byte: u8, n1: int, n2: int)
    requires
        0 <= n1 <= n2,
    ensures
        read_timeout_us_spec(pmm_byte, n1) <= read_timeout_us_spec(pmm_byte, n2),
{
    let a = (pmm_byte % 8) as int;
    let b = ((pmm_byte / 8) % 8) as int;
    let e = (pmm_byte / 64) as int;
    let k1 = (b + 1) * n1 + (a + 1);
    let k2 = (b + 1) * n2 + (a + 1);
    assert(k1 <= k2) by (nonlinear_arith)
        requires
            0 <= n1 <= n2 && b >= 0 && k1 == (b + 1) * n1 + (a + 1) && k2 == (b + 1) * n2 + (a + 1),
    ;
    assert(k1 >= 0) by (nonlinear_arith)
        requires
            n1 >= 0 && b >= 0 && a >= 0 && k1 == (b + 1) * n1 + (a + 1),
    ;
    assert(TIMING_UNIT_NS * k1 * pow4(e) <= TIMING_UNIT_NS * k2 * pow4(e)) by (nonlinear_arith)
        requires
            0 <= k1 <= k2 && pow4(e) >= 1,
    ;
    vstd::arithmetic::div_mod::lemma_div_is_ordered(
        TIMING_UNIT_NS * k1 * pow4(e),
        TIMING_UNIT_NS * k2 * pow4(e),
        1000,
    );
}

/// A read response is acceptable when its first byte states its own
/// length, its second byte is the read response code 0x07, it echoes
/// the card's IDm, and it is long enough for the block count it states.
pub open spec fn read_response_ok(res: Seq<u8>, idm: Seq<u8>) -> bool {
    &&& res.len() >= 13
    &&& res[0] == res.len() % 0x100
    &&& res[1] == 0x07
    &&& res.subrange(2, 10) == idm
    &&& res.len() >= 13 + 16 * res[12]
}

/// How a parsed read response relates to the response bytes: both
/// status flags zero and the stated number of 16-byte records, in
/// order.
pub open spec fn read_parse_ok(res: Seq<u8>, idm: Seq<u8>, p: ReadWithoutEncryptionResponse) -> bool {
    &&& read_response_ok(res, idm)
    &&& res[10] == 0 && res[11] == 0
    &&& p.status_flag1 == 0 && p.status_flag2 == 0
    &&& p.block_data@.len() == res[12]
    &&& forall|i: int|
        0 <= i < res[12] ==> #[trigger] p.block_data@[i]@ == res.subrange(
            13 + 16 * i,
            13 + 16 * i + 16,
        )
}

/// Interprets the raw bytes a card answered to an unencrypted read.
/// Nonzero status flags are a device-reported error; an acceptable
/// response with zero flags yields exactly the records
/// `read_parse_ok` describes.
pub fn parse_read_response(res: &Vec<u8>, idm: &[u8; 8]) -> (r: Result<
    ReadWithoutEncryptionResponse,
    Error,
>)
    ensures
        match r {
            Ok(p) => read_parse_ok(res@, idm@, p),
            Err(e) => {
                ||| !read_response_ok(res@, idm@) && (e == Error::Protocol(
                    ProtocolError::DeviceReportedError,
                ) || e == Error::Protocol(ProtocolError::ResponseCodeMismatch))
                ||| read_response_ok(res@, idm@) && !(res@[10] == 0 && res@[11] == 0) && e
                    == Error::Protocol(ProtocolError::NonZeroStatus)
            },
        },
        r is Ok <==> read_response_ok(res@, idm@) && res@[10] == 0 && res@[11] == 0,
{
    if res.len() < 13 || res[0] as usize != res.len() % 0x100 {
        return Err(Error::Protocol(ProtocolError::DeviceReportedError));
    }
    if res[1] != 0x07 {
        return Err(Error::Protocol(ProtocolError::ResponseCodeMismatch));
    }
    let mut j: usize = 0;
    while j < 8
        invariant
            j <= 8,
            res@.len() >= 13,
            forall|t: int| 0 <= t < j ==> res@[2 + t] == idm@[t],
        decreases 8 - j,
    {
        if res[2 + j] != idm[j] {
            proof {
                assert(res@.subrange(2, 10)[j as int] != idm@[j as int]);
            }
            return Err(Error::Protocol(ProtocolError::DeviceReportedError));
        }
        j = j + 1;
    }
    proof {
        assert(res@.subrange(2, 10) =~= idm@);
    }
    let status_flag1 = res[10];
    let status_flag2 = res[11];
    let count = res[12] as usize;
    if res.len() < 13 + 16 * count {
        return Err(Error::Protocol(ProtocolError::DeviceReportedError));
    }
    if status_flag1 != 0 || status_flag2 != 0 {
        return Err(Error::Protocol(ProtocolError::NonZeroStatus));
    }
    let mut block_data: Vec<Vec<u8>> = Vec::new();
    let mut i: usize = 0;
    while i < count
        invariant
            i <= count,
            count == res@[12],
            res@.len() >= 13 + 16 * count,
            block_data@.len() == i,
            forall|t: int|
                0 <= t < i ==> #[trigger] block_data@[t]@ == res@.subrange(
                    13 + 16 * t,
                    13 + 16 * t + 16,
                ),
        decreases count - i,
    {
        let start = 13 + 16 * i;
        let record = vstd::slice::slice_to_vec(&res.as_slice()[start..start + 16]);
        block_data.push(record);
        i = i + 1;
    }
    Ok(ReadWithoutEncryptionResponse { status_flag1, status_flag2, block_data })
}

} // verus!
