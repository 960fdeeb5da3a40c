//! Unified Diagnostic Services (ISO 14229): request encoding and response
//! checking. The client that sends requests over ISO-TP uses these to build
//! each request and to judge each response.
use vstd::prelude::*;
use std::time::Duration;
use crate::isotp::codec::{push_all, slice_to_vec};
use crate::time::{duration_of_micros, micros};

pub mod constants;
pub mod error;

pub use constants::{
    DataIdentifier, ReportType, ResetType, RoutineControlType, SecurityAccessType,
    ServiceIdentifier, SessionType, NEGATIVE_RESPONSE, POSITIVE_RESPONSE, ZERO_SUB_FUNCTION,
};
pub use error::{Error, NegativeResponseCode, nrc_of};

verus! {

/// Negative response code that means "still working, answer follows".
pub const RESPONSE_PENDING: u8 = 0x78;

/// Timing record returned by DiagnosticSessionControl (0x10).
#[derive(Debug, Copy, Clone)]
pub struct SessionParameterRecord {
    /// Longest time the ECU takes to start a response to a request.
    pub p2_server_max: Duration,
    /// Longest time the ECU takes to start a response after ResponsePending.
    pub p2_star_server_max: Duration,
}

/// DTC format identifiers of ReadDTCInformation.
#[allow(non_camel_case_types)]
#[derive(Debug, Copy, Clone, PartialEq, Eq, Structural)]
pub enum DTCFormatIdentifier {
    SAE_J2012_DA_DTCFormat_00,
    ISO_14229_1_DTCFormat,
    SAE_J1939_73_DTCFormat,
    ISO_11992_4_DTCFormat,
    SAE_J2012_DA_DTCFormat_04,
}

pub open spec fn dtc_format_spec(b: u8) -> Option<DTCFormatIdentifier> {
    if b == 0 {
        Some(DTCFormatIdentifier::SAE_J2012_DA_DTCFormat_00)
    } else if b == 1 {
        Some(DTCFormatIdentifier::ISO_14229_1_DTCFormat)
    } else if b == 2 {
        Some(DTCFormatIdentifier::SAE_J1939_73_DTCFormat)
    } else if b == 3 {
        Some(DTCFormatIdentifier::ISO_11992_4_DTCFormat)
    } else if b == 4 {
        Some(DTCFormatIdentifier::SAE_J2012_DA_DTCFormat_04)
    } else {
        None
    }
}

impl DTCFormatIdentifier {
    /// The format identifier with this value.
    pub fn from_repr(b: u8) -> (r: Option<DTCFormatIdentifier>)
        ensures
            r == dtc_format_spec(b),
    {
        if b == 0 {
            Some(DTCFormatIdentifier::SAE_J2012_DA_DTCFormat_00)
        } else if b == 1 {
            Some(DTCFormatIdentifier::ISO_14229_1_DTCFormat)
        } else if b == 2 {
            Some(DTCFormatIdentifier::SAE_J1939_73_DTCFormat)
        } else if b == 3 {
            Some(DTCFormatIdentifier::ISO_11992_4_DTCFormat)
        } else if b == 4 {
            Some(DTCFormatIdentifier::SAE_J2012_DA_DTCFormat_04)
        } else {
            None
        }
    }
}

/// Answer of ReadDTCInformation (0x19), reportNumberOfDTCByStatusMask.
#[derive(Debug, Copy, Clone, PartialEq, Eq, Structural)]
pub struct DTCReportNumberByStatusMask {
    pub dtc_status_availability_mask: u8,
    pub dtc_format_identifier: DTCFormatIdentifier,
    pub dtc_count: u16,
}

/// Big-endian value of two bytes.
pub open spec fn be16(a: u8, b: u8) -> u16 {
    (a as int * 0x100 + b as int) as u16
}

fn be16_of(a: u8, b: u8) -> (r: u16)
    ensures
        r == be16(a, b),
{
    (a as u16) * 0x100 + b as u16
}

/// Request payload: service id, optional sub-function, optional data.
pub open spec fn request_bytes(sid: u8, sub_function: Option<u8>, data: Option<Seq<u8>>) -> Seq<u8> {
    let head = match sub_function {
        Some(s) => seq![sid, s],
        None => seq![sid],
    };
    match data {
        Some(d) => head + d,
        None => head,
    }
}

pub open spec fn opt_view(data: Option<&[u8]>) -> Option<Seq<u8>> {
    match data {
        Some(d) => Some(d@),
        None => None,
    }
}

/// Builds the request `[sid, sub_function?, data...]`.
pub fn build_request(sid: u8, sub_function: Option<u8>, data: Option<&[u8]>) -> (r: Vec<u8>)
    ensures
        r@ == request_bytes(sid, sub_function, opt_view(data)),
{
    let mut v: Vec<u8> = Vec::new();
    v.push(sid);
    if let Some(s) = sub_function {
        v.push(s);
    }
    assert(v@ =~= request_bytes(sid, sub_function, None));
    if let Some(d) = data {
        push_all(&mut v, d);
    }
    v
}

/// How a response to a request reads.
pub enum ResponseCheck {
    /// ResponsePending: the ECU is still working; wait for the next response.
    Pending,
    /// The request is answered: the bytes after the service id and
    /// sub-function, or the error the response shows.
    Done(Result<Vec<u8>, Error>),
}

/// Whether a response is ResponsePending.
pub open spec fn is_pending(resp: Seq<u8>) -> bool {
    resp.len() >= 3 && resp[0] == NEGATIVE_RESPONSE && resp[2] == RESPONSE_PENDING
}

/// The answer a (not pending) response gives to request `sid`/`sub_function`.
pub open spec fn response_result(sid: u8, sub_function: Option<u8>, resp: Seq<u8>) -> Result<Seq<u8>, Error> {
    if resp.len() == 0 {
        Err(Error::InvalidResponseLength)
    } else if resp[0] == NEGATIVE_RESPONSE {
        if resp.len() < 3 {
            Err(Error::InvalidResponseLength)
        } else {
            Err(Error::NegativeResponse(nrc_of(resp[2])))
        }
    } else if resp[0] != (sid | POSITIVE_RESPONSE) {
        Err(Error::InvalidServiceId(resp[0]))
    } else {
        match sub_function {
            Some(s) => if resp.len() < 2 {
                Err(Error::InvalidResponseLength)
            } else if resp[1] != s {
                Err(Error::InvalidSubFunction(resp[1]))
            } else {
                Ok(resp.skip(2))
            },
            None => Ok(resp.skip(1)),
        }
    }
}

/// Judges one response to request `sid`/`sub_function`: ResponsePending
/// asks for another response; any other negative response is
/// `NegativeResponse`; a positive response must carry `sid | 0x40` and echo
/// the sub-function, and yields the bytes after them.
pub fn check_response(sid: u8, sub_function: Option<u8>, resp: &[u8]) -> (r: ResponseCheck)
    ensures
        is_pending(resp@) ==> r is Pending,
        !is_pending(resp@) ==> match response_result(sid, sub_function, resp@) {
            Ok(p) => r matches ResponseCheck::Done(Ok(v)) && v@ == p,
            Err(e) => r matches ResponseCheck::Done(Err(e2)) && e2 == e,
        },
{
    if resp.len() == 0 {
        return ResponseCheck::Done(Err(Error::InvalidResponseLength));
    }
    let first = resp[0];
    if first == NEGATIVE_RESPONSE {
        if resp.len() < 3 {
            return ResponseCheck::Done(Err(Error::InvalidResponseLength));
        }
        if resp[2] == RESPONSE_PENDING {
            return ResponseCheck::Pending;
        }
        return ResponseCheck::Done(Err(Error::NegativeResponse(NegativeResponseCode::from(resp[2]))));
    }
    if first != (sid | POSITIVE_RESPONSE) {
        return ResponseCheck::Done(Err(Error::InvalidServiceId(first)));
    }
    match sub_function {
        Some(s) => {
            if resp.len() < 2 {
                return ResponseCheck::Done(Err(Error::InvalidResponseLength));
            }
            if resp[1] != s {
                return ResponseCheck::Done(Err(Error::InvalidSubFunction(resp[1])));
            }
            let p = slice_to_vec(resp, 2, resp.len());
            assert(p@ =~= resp@.skip(2));
            ResponseCheck::Done(Ok(p))
        },
        None => {
            let p = slice_to_vec(resp, 1, resp.len());
            assert(p@ =~= resp@.skip(1));
            ResponseCheck::Done(Ok(p))
        },
    }
}

/// Reads the optional timing record of a DiagnosticSessionControl answer:
/// four bytes, P2 as a big-endian count of milliseconds and P2* as a
/// big-endian count of tens of milliseconds. Any other length has none.
pub fn session_parameters(resp: &[u8]) -> (r: Option<SessionParameterRecord>)
    ensures
        r is Some <==> resp@.len() == 4,
        r matches Some(rec) ==> {
            &&& rec.p2_server_max == duration_of_micros((be16(resp@[0], resp@[1]) as u64 * 1000) as u64)
            &&& rec.p2_star_server_max == duration_of_micros(
                (be16(resp@[2], resp@[3]) as u64 * 10_000) as u64,
            )
        },
{
    if resp.len() != 4 {
        return None;
    }
    let p2 = be16_of(resp[0], resp[1]) as u64;
    let p2_star = be16_of(resp[2], resp[3]) as u64;
    Some(SessionParameterRecord {
        p2_server_max: micros(p2 * 1000),
        p2_star_server_max: micros(p2_star * 10_000),
    })
}

/// The power-down time of an ECUReset answer: its only byte, if it has
/// exactly one.
pub fn ecu_reset_response(resp: &[u8]) -> (r: Option<u8>)
    ensures
        r is Some <==> resp@.len() == 1,
        r matches Some(t) ==> t == resp@[0],
{
    if resp.len() == 1 {
        Some(resp[0])
    } else {
        None
    }
}

/// Big-endian bytes of a 16-bit identifier.
pub open spec fn be16_bytes(v: u16) -> Seq<u8> {
    seq![(v / 0x100) as u8, (v % 0x100) as u8]
}

/// Big-endian bytes of a 16-bit identifier, as a request payload.
pub fn identifier_bytes(v: u16) -> (r: Vec<u8>)
    ensures
        r@ == be16_bytes(v),
{
    let mut b: Vec<u8> = Vec::new();
    b.push((v / 0x100) as u8);
    b.push((v % 0x100) as u8);
    assert(b@ =~= be16_bytes(v));
    b
}

/// What follows a 16-bit identifier echo: `InvalidResponseLength` when the
/// answer is shorter than two bytes, `InvalidDataIdentifier` with the echoed
/// value when it is not `id`, else the bytes after the echo.
pub open spec fn after_echo(id: u16, resp: Seq<u8>) -> Result<Seq<u8>, Error> {
    if resp.len() < 2 {
        Err(Error::InvalidResponseLength)
    } else if be16(resp[0], resp[1]) != id {
        Err(Error::InvalidDataIdentifier(be16(resp[0], resp[1])))
    } else {
        Ok(resp.skip(2))
    }
}

/// Checks the identifier echo of a ReadDataByIdentifier,
/// WriteDataByIdentifier or RoutineControl answer and returns what follows.
pub fn check_identifier_echo(id: u16, resp: &[u8]) -> (r: Result<Vec<u8>, Error>)
    ensures
        match after_echo(id, resp@) {
            Ok(p) => r matches Ok(v) && v@ == p,
            Err(e) => r == Err::<Vec<u8>, Error>(e),
        },
{
    if resp.len() < 2 {
        return Err(Error::InvalidResponseLength);
    }
    let echo = be16_of(resp[0], resp[1]);
    if echo != id {
        return Err(Error::InvalidDataIdentifier(echo));
    }
    let p = slice_to_vec(resp, 2, resp.len());
    assert(p@ =~= resp@.skip(2));
    Ok(p)
}

/// Payload of a WriteDataByIdentifier request: identifier, then the record.
pub fn write_identifier_request(data_identifier: u16, data_record: &[u8]) -> (r: Vec<u8>)
    ensures
        r@ == be16_bytes(data_identifier) + data_record@,
{
    let mut v = identifier_bytes(data_identifier);
    push_all(&mut v, data_record);
    v
}

/// Address-and-length format byte: size width in the high nibble, address
/// width in the low nibble.
pub open spec fn address_format(address_len: int, size_len: int) -> u8 {
    (size_len * 16 + address_len) as u8
}

/// Payload of ReadMemoryByAddress and WriteMemoryByAddress: format byte,
/// address, size, then the data to write, if any.
pub fn memory_request(memory_address: &[u8], memory_size: &[u8], data: Option<&[u8]>) -> (r: Vec<u8>)
    requires
        1 <= memory_address@.len() <= 15,
        1 <= memory_size@.len() <= 15,
    ensures
        r@ == seq![address_format(memory_address@.len() as int, memory_size@.len() as int)]
            + memory_address@ + memory_size@ + match opt_view(data) {
            Some(d) => d,
            None => Seq::empty(),
        },
{
    let mut v: Vec<u8> = Vec::new();
    v.push((memory_size.len() * 16 + memory_address.len()) as u8);
    push_all(&mut v, memory_address);
    push_all(&mut v, memory_size);
    if let Some(d) = data {
        push_all(&mut v, d);
    } else {
        assert(v@ =~= v@ + Seq::<u8>::empty());
    }
    v
}

/// Reads a reportNumberOfDTCByStatusMask answer: status availability mask,
/// format identifier, big-endian count. Any length but four, or an unknown
/// format identifier, is `InvalidResponseLength`.
pub fn dtc_count_response(resp: &[u8]) -> (r: Result<DTCReportNumberByStatusMask, Error>)
    ensures
        r is Ok <==> resp@.len() == 4 && dtc_format_spec(resp@[1]) is Some,
        r is Err ==> r == Err::<DTCReportNumberByStatusMask, Error>(Error::InvalidResponseLength),
        r matches Ok(rep) ==> {
            &&& rep.dtc_status_availability_mask == resp@[0]
            &&& Some(rep.dtc_format_identifier) == dtc_format_spec(resp@[1])
            &&& rep.dtc_count == be16(resp@[2], resp@[3])
        },
{
    if resp.len() != 4 {
        return Err(Error::InvalidResponseLength);
    }
    match DTCFormatIdentifier::from_repr(resp[1]) {
        Some(f) => Ok(DTCReportNumberByStatusMask {
            dtc_status_availability_mask: resp[0],
            dtc_format_identifier: f,
            dtc_count: be16_of(resp[2], resp[3]),
        }),
        None => Err(Error::InvalidResponseLength),
    }
}

/// Payload of a RoutineControl request: routine identifier, then data.
pub fn routine_request(routine_identifier: u16, data: Option<&[u8]>) -> (r: Vec<u8>)
    ensures
        r@ == be16_bytes(routine_identifier) + match opt_view(data) {
            Some(d) => d,
            None => Seq::empty(),
        },
{
    let mut v = identifier_bytes(routine_identifier);
    if let Some(d) = data {
        push_all(&mut v, d);
    } else {
        assert(v@ =~= v@ + Seq::<u8>::empty());
    }
    v
}

/// `None` for no bytes, else the bytes.
pub open spec fn nonempty(s: Seq<u8>) -> Option<Seq<u8>> {
    if s.len() == 0 {
        None
    } else {
        Some(s)
    }
}

pub open spec fn opt_vec_view(v: Option<Vec<u8>>) -> Option<Seq<u8>> {
    match v {
        Some(x) => Some(x@),
        None => None,
    }
}

fn nonempty_vec(v: Vec<u8>) -> (r: Option<Vec<u8>>)
    ensures
        opt_vec_view(r) == nonempty(v@),
{
    if v.len() == 0 {
        None
    } else {
        Some(v)
    }
}

/// Checks the routine identifier echo of a RoutineControl answer and
/// returns the routine's data, if it sent any.
pub fn routine_response(routine_identifier: u16, resp: &[u8]) -> (r: Result<Option<Vec<u8>>, Error>)
    ensures
        match after_echo(routine_identifier, resp@) {
            Ok(p) => r matches Ok(o) && opt_vec_view(o) == nonempty(p),
            Err(e) => r == Err::<Option<Vec<u8>>, Error>(e),
        },
{
    match check_identifier_echo(routine_identifier, resp) {
        Ok(p) => Ok(nonempty_vec(p)),
        Err(e) => Err(e),
    }
}

/// Payload of RequestDownload and RequestUpload: data format byte
/// (compression, encryption), address-and-length format byte, address, size.
pub fn download_upload_request(
    compression_method: u8,
    encryption_method: u8,
    memory_address: &[u8],
    memory_size: &[u8],
) -> (r: Vec<u8>)
    requires
        compression_method <= 0xf,
        encryption_method <= 0xf,
        1 <= memory_address@.len() <= 15,
        1 <= memory_size@.len() <= 15,
    ensures
        r@ == seq![
            (compression_method * 16 + encryption_method) as u8,
            address_format(memory_address@.len() as int, memory_size@.len() as int)
        ] + memory_address@ + memory_size@,
{
    let mut v: Vec<u8> = Vec::new();
    v.push(compression_method * 16 + encryption_method);
    v.push((memory_size.len() * 16 + memory_address.len()) as u8);
    push_all(&mut v, memory_address);
    push_all(&mut v, memory_size);
    v
}

/// Big-endian value of a byte sequence.
pub open spec fn be_value(s: Seq<u8>) -> nat
    decreases s.len(),
{
    if s.len() == 0 {
        0
    } else {
        be_value(s.drop_last()) * 256 + s.last() as nat
    }
}

pub open spec fn pow256(n: nat) -> nat
    decreases n,
{
    if n == 0 {
        1
    } else {
        256 * pow256((n - 1) as nat)
    }
}

proof fn lemma_pow256_mono(a: nat, b: nat)
    requires
        a <= b,
    ensures
        pow256(a) <= pow256(b),
    decreases b,
{
    if a < b {
        lemma_pow256_mono(a, (b - 1) as nat);
    }
}

/// The maximum block length of a RequestDownload or RequestUpload answer:
/// the high nibble of the first byte gives the width (1 to 8) of the
/// big-endian field that follows, which must be the rest of the answer;
/// otherwise `InvalidResponseLength`.
pub fn max_block_length(resp: &[u8]) -> (r: Result<u64, Error>)
    ensures
        r is Ok <==> resp@.len() >= 1 && 1 <= resp@[0] / 16 <= 8 && resp@.len() == resp@[0] / 16 + 1,
        r is Err ==> r == Err::<u64, Error>(Error::InvalidResponseLength),
        r matches Ok(n) ==> n as nat == be_value(resp@.skip(1)),
{
    if resp.len() == 0 {
        return Err(Error::InvalidResponseLength);
    }
    let width = (resp[0] / 16) as usize;
    if width == 0 || width > 8 || resp.len() != width + 1 {
        return Err(Error::InvalidResponseLength);
    }
    let ghost field = resp@.skip(1);
    let mut acc: u64 = 0;
    let mut i: usize = 1;
    proof {
        lemma_pow256_mono(0, 7);
        reveal_with_fuel(pow256, 8);
        assert(pow256(7) == 0x100_0000_0000_0000);
    }
    while i < resp.len()
        invariant
            1 <= i <= resp@.len(),
            resp@.len() == width + 1,
            width <= 8,
            field == resp@.skip(1),
            acc as nat == be_value(field.take(i - 1)),
            acc < pow256((i - 1) as nat),
            pow256(7) == 0x100_0000_0000_0000,
        decreases resp@.len() - i,
    {
        let ghost prev = field.take(i - 1);
        proof {
            lemma_pow256_mono((i - 1) as nat, 7);
            assert(field.take(i as int).drop_last() =~= prev);
            assert(field.take(i as int).last() == resp@[i as int]);
            assert(acc * 256 + 255 < 0x1_0000_0000_0000_0000) by (nonlinear_arith)
                requires acc < 0x100_0000_0000_0000;
            assert(acc * 256 + resp@[i as int] < pow256(i as nat)) by (nonlinear_arith)
                requires acc < pow256((i - 1) as nat), resp@[i as int] < 256, pow256(i as nat) == 256 * pow256((i - 1) as nat);
        }
        acc = acc * 256 + resp[i] as u64;
        i += 1;
    }
    assert(field.take(width as int) =~= field);
    Ok(acc)
}

/// Payload of a TransferData request: block sequence counter, then data.
pub fn transfer_data_request(block_sequence_counter: u8, data: Option<&[u8]>) -> (r: Vec<u8>)
    ensures
        r@ == seq![block_sequence_counter] + match opt_view(data) {
            Some(d) => d,
            None => Seq::empty(),
        },
{
    let mut v: Vec<u8> = Vec::new();
    v.push(block_sequence_counter);
    if let Some(d) = data {
        push_all(&mut v, d);
    } else {
        assert(v@ =~= v@ + Seq::<u8>::empty());
    }
    v
}

/// Checks the block sequence counter echo of a TransferData answer and
/// returns the data that follows, if any: `InvalidResponseLength` for an
/// empty answer, `InvalidBlockSequenceCounter` with the echoed value when it
/// differs.
pub fn transfer_data_response(block_sequence_counter: u8, resp: &[u8]) -> (r: Result<Option<Vec<u8>>, Error>)
    ensures
        resp@.len() == 0 ==> r == Err::<Option<Vec<u8>>, Error>(Error::InvalidResponseLength),
        resp@.len() > 0 && resp@[0] != block_sequence_counter ==> r == Err::<Option<Vec<u8>>, Error>(
            Error::InvalidBlockSequenceCounter(resp@[0]),
        ),
        resp@.len() > 0 && resp@[0] == block_sequence_counter ==> (r matches Ok(o) && opt_vec_view(o)
            == nonempty(resp@.skip(1))),
{
    if resp.len() == 0 {
        return Err(Error::InvalidResponseLength);
    }
    if resp[0] != block_sequence_counter {
        return Err(Error::InvalidBlockSequenceCounter(resp[0]));
    }
    let p = slice_to_vec(resp, 1, resp.len());
    assert(p@ =~= resp@.skip(1));
    Ok(nonempty_vec(p))
}

/// The optional data of a RequestTransferExit answer.
pub fn transfer_exit_response(resp: &[u8]) -> (r: Option<Vec<u8>>)
    ensures
        opt_vec_view(r) == nonempty(resp@),
{
    nonempty_vec(slice_to_vec(resp, 0, resp.len()))
}

} // verus!
