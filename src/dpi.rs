//! DPI and RGB stage tables. The device keeps its eight stages two to a
//! report: a stage pair is read with one query and rewritten with one write,
//! so changing one stage means decoding the pair, replacing one slot and
//! encoding both again.

use vstd::prelude::*;
use vstd::arithmetic::div_mod::lemma_fundamental_div_mod;
use crate::checksum::{
    checksum, checksum_of, frame_valid, lemma_sealed_frame_valid, seal, sealed, CHECKSUM_BASE,
    FRAME_HEADER, FRAME_LEN,
};
use crate::error::{message, MadRError};
use crate::frame::{query_frame, query_of, READ_FAMILY, WRITE_FAMILY};
use crate::text::{decimal_u8, parse_u8, split_fields, split_on};

verus! {

/// Length byte carried by stage-pair frames.
pub const PAIR_LEN_BYTE: u8 = 0x08;

/// Report id of DPI stage pair 0; pair `i` is at `0x04 + 8 * i`.
pub const DPI_REPORT_BASE: u8 = 0x04;

/// Report id of RGB stage pair 0; pair `i` is at `0x24 + 8 * i`.
pub const RGB_REPORT_BASE: u8 = 0x24;

/// Horizontal and vertical resolution of one DPI stage.
#[derive(Debug, Clone, Copy, PartialEq, Eq, Structural)]
pub struct DpiStage {
    pub x_dpi: u32,
    pub y_dpi: u32,
}

impl DpiStage {
    pub fn new(x_dpi: u32, y_dpi: u32) -> (r: DpiStage)
        ensures
            r.x_dpi == x_dpi,
            r.y_dpi == y_dpi,
    {
        DpiStage { x_dpi, y_dpi }
    }
}

/// Colour of one stage's light.
#[derive(Debug, Clone, Copy, PartialEq, Eq, Structural)]
pub struct Rgb {
    pub r: u8,
    pub g: u8,
    pub b: u8,
}

impl Rgb {
    pub fn new(r: u8, g: u8, b: u8) -> (c: Rgb)
        ensures
            c.r == r,
            c.g == g,
            c.b == b,
    {
        Rgb { r, g, b }
    }
}

/// Stages are numbered 1 to 8.
pub open spec fn valid_stage(stage: u8) -> bool {
    1 <= stage <= 8
}

/// Which stage pair holds a stage: `ceil(stage / 2)`.
pub open spec fn report_index(stage: u8) -> u8 {
    ((stage + 1) / 2) as u8
}

/// Odd stages sit in the first slot of their pair, even stages in the second.
pub open spec fn first_slot(stage: u8) -> bool {
    stage % 2 == 1
}

pub open spec fn dpi_report_id(index: u8) -> u8 {
    (DPI_REPORT_BASE + index * 8) as u8
}

pub open spec fn rgb_report_id(index: u8) -> u8 {
    (RGB_REPORT_BASE + index * 8) as u8
}

/// A DPI that a caller may ask for: a multiple of 50 from 100 to 30000.
pub open spec fn valid_dpi(d: int) -> bool {
    d % 50 == 0 && 100 <= d <= 30000
}

/// Stored value of a DPI: `dpi / 50 - 1`, floored at 0.
pub open spec fn dpi_raw(dpi: u32) -> u32 {
    if dpi / 50 == 0 {
        0
    } else {
        (dpi / 50 - 1) as u32
    }
}

/// DPI of a stored value: `(raw + 1) * 50`.
pub open spec fn dpi_of_raw(raw: u32) -> u32 {
    ((raw + 1) * 50) as u32
}

/// The shared high byte: bits 8-9 of the y value at bits 6-7, bits 8-11 of
/// the x value at bits 2-5.
pub open spec fn pack_high(x_raw: u32, y_raw: u32) -> u8 {
    (((y_raw >> 8) << 6) | ((x_raw >> 8) << 2)) as u8
}

pub open spec fn unpack_x(low: u8, high: u8) -> u32 {
    ((((high >> 2) & 0x0F) as u32) << 8) | (low as u32)
}

pub open spec fn unpack_y(low: u8, high: u8) -> u32 {
    ((((high >> 6) & 0x03) as u32) << 8) | (low as u32)
}

/// The stored values fit their fields: 12 bits for x, 10 bits for y.
pub open spec fn stage_fits(s: DpiStage) -> bool {
    s.x_dpi / 50 <= 4096 && s.y_dpi / 50 <= 1024
}

/// A stage that encoding keeps exactly: both values multiples of 50, at
/// least 50, and fitting their fields.
pub open spec fn dpi_exact(s: DpiStage) -> bool {
    &&& stage_fits(s)
    &&& s.x_dpi % 50 == 0 && s.x_dpi >= 50
    &&& s.y_dpi % 50 == 0 && s.y_dpi >= 50
}

/// Three bytes followed by their checksum against the field base.
pub open spec fn field_record(a: u8, b: u8, c: u8) -> Seq<u8> {
    seq![a, b, c, checksum_of(seq![a, b, c], CHECKSUM_BASE)]
}

pub open spec fn dpi_record(s: DpiStage) -> Seq<u8> {
    let xr = dpi_raw(s.x_dpi);
    let yr = dpi_raw(s.y_dpi);
    field_record((xr & 0xFF) as u8, (yr & 0xFF) as u8, pack_high(xr, yr))
}

pub open spec fn rgb_record(c: Rgb) -> Seq<u8> {
    field_record(c.r, c.g, c.b)
}

/// The 16 bytes of a stage-pair write before its trailing checksum.
pub open spec fn pair_body(report_id: u8, first: Seq<u8>, second: Seq<u8>) -> Seq<u8> {
    seq![FRAME_HEADER, WRITE_FAMILY, 0u8, 0u8, report_id, PAIR_LEN_BYTE] + first + second + seq![
        0u8,
        0u8,
    ]
}

pub open spec fn dpi_pair_frame(index: u8, a: DpiStage, b: DpiStage) -> Seq<u8> {
    sealed(pair_body(dpi_report_id(index), dpi_record(a), dpi_record(b)))
}

pub open spec fn rgb_pair_frame(index: u8, a: Rgb, b: Rgb) -> Seq<u8> {
    sealed(pair_body(rgb_report_id(index), rgb_record(a), rgb_record(b)))
}

/// A response long enough to hold a frame and starting with the header.
pub open spec fn response_ok(r: Seq<u8>) -> bool {
    r.len() >= FRAME_LEN && r[0] == FRAME_HEADER
}

/// The DPI stage held by the record at offset `at`.
pub open spec fn dpi_at(r: Seq<u8>, at: int) -> DpiStage {
    DpiStage {
        x_dpi: dpi_of_raw(unpack_x(r[at], r[at + 2])),
        y_dpi: dpi_of_raw(unpack_y(r[at + 1], r[at + 2])),
    }
}

/// The colour held by the record at offset `at`.
pub open spec fn rgb_at(r: Seq<u8>, at: int) -> Rgb {
    Rgb { r: r[at], g: r[at + 1], b: r[at + 2] }
}

/// The pair with the slot of `stage` replaced by `v`.
pub open spec fn with_slot<T>(pair: (T, T), stage: u8, v: T) -> (T, T) {
    if first_slot(stage) {
        (v, pair.1)
    } else {
        (pair.0, v)
    }
}

/// Checksum of a three-byte record against the field base.
fn field_checksum(a: u8, b: u8, c: u8) -> (r: u8)
    ensures
        r == checksum_of(seq![a, b, c], CHECKSUM_BASE),
{
    let bytes = [a, b, c];
    proof {
        assert(bytes@ =~= seq![a, b, c]);
    }
    checksum(&bytes, CHECKSUM_BASE)
}

fn encode_dpi_record(s: &DpiStage) -> (r: (u8, u8, u8, u8))
    requires
        stage_fits(*s),
    ensures
        seq![r.0, r.1, r.2, r.3] == dpi_record(*s),
{
    let x_raw = (s.x_dpi / 50).saturating_sub(1);
    let y_raw = (s.y_dpi / 50).saturating_sub(1);
    let x_low = (x_raw & 0xFF) as u8;
    let y_low = (y_raw & 0xFF) as u8;
    let high = (((y_raw >> 8) << 6) | ((x_raw >> 8) << 2)) as u8;
    let check = field_checksum(x_low, y_low, high);
    (x_low, y_low, high, check)
}

fn decode_dpi_record(x_low: u8, y_low: u8, high: u8) -> (r: DpiStage)
    ensures
        r.x_dpi == dpi_of_raw(unpack_x(x_low, high)),
        r.y_dpi == dpi_of_raw(unpack_y(y_low, high)),
{
    let x_raw: u32 = ((((high >> 2) & 0x0F) as u32) << 8) | (x_low as u32);
    let y_raw: u32 = ((((high >> 6) & 0x03) as u32) << 8) | (y_low as u32);
    assert(x_raw < 4096) by (bit_vector)
        requires
            x_raw == ((((high >> 2) & 0x0F) as u32) << 8) | (x_low as u32),
    ;
    assert(y_raw < 1024) by (bit_vector)
        requires
            y_raw == ((((high >> 6) & 0x03) as u32) << 8) | (y_low as u32),
    ;
    DpiStage { x_dpi: (x_raw + 1) * 50, y_dpi: (y_raw + 1) * 50 }
}

/// A stage-pair write frame around two records.
fn pair_frame(report_id: u8, first: (u8, u8, u8, u8), second: (u8, u8, u8, u8)) -> (r: Vec<u8>)
    ensures
        r@ == sealed(
            pair_body(
                report_id,
                seq![first.0, first.1, first.2, first.3],
                seq![second.0, second.1, second.2, second.3],
            ),
        ),
        frame_valid(r@),
{
    let mut frame = vec![
        FRAME_HEADER,
        WRITE_FAMILY,
        0x00,
        0x00,
        report_id,
        PAIR_LEN_BYTE,
        first.0,
        first.1,
        first.2,
        first.3,
        second.0,
        second.1,
        second.2,
        second.3,
        0x00,
        0x00,
    ];
    proof {
        assert(frame@ =~= pair_body(
            report_id,
            seq![first.0, first.1, first.2, first.3],
            seq![second.0, second.1, second.2, second.3],
        ));
        lemma_sealed_frame_valid(frame@);
    }
    seal(&mut frame);
    frame
}

/// The query that reads DPI stage pair `report_index`.
pub fn dpi_query(report_index: u8) -> (r: Vec<u8>)
    requires
        report_index <= 31,
    ensures
        r@ == query_of(READ_FAMILY, dpi_report_id(report_index), PAIR_LEN_BYTE),
        frame_valid(r@),
{
    query_frame(READ_FAMILY, DPI_REPORT_BASE + report_index * 8, PAIR_LEN_BYTE)
}

/// The query that reads RGB stage pair `report_index`.
pub fn rgb_query(report_index: u8) -> (r: Vec<u8>)
    requires
        report_index <= 27,
    ensures
        r@ == query_of(READ_FAMILY, rgb_report_id(report_index), PAIR_LEN_BYTE),
        frame_valid(r@),
{
    query_frame(READ_FAMILY, RGB_REPORT_BASE + report_index * 8, PAIR_LEN_BYTE)
}

/// Decodes the two DPI stages of a stage-pair response (records at bytes 6
/// and 10).
pub fn decode_dpi_pair(report: &[u8]) -> (r: Result<(DpiStage, DpiStage), MadRError>)
    ensures
        response_ok(report@) ==> r == Ok::<(DpiStage, DpiStage), MadRError>(
            (dpi_at(report@, 6), dpi_at(report@, 10)),
        ),
        !response_ok(report@) ==> r == Err::<(DpiStage, DpiStage), MadRError>(
            MadRError::InvalidDpiFormat,
        ),
{
    if report.len() < FRAME_LEN || report[0] != FRAME_HEADER {
        return Err(MadRError::InvalidDpiFormat);
    }
    let stage_a = decode_dpi_record(report[6], report[7], report[8]);
    let stage_b = decode_dpi_record(report[10], report[11], report[12]);
    Ok((stage_a, stage_b))
}

/// Decodes the two colours of a stage-pair response (records at bytes 6 and
/// 10).
pub fn decode_rgb_pair(response: &[u8]) -> (r: Result<(Rgb, Rgb), MadRError>)
    ensures
        response_ok(response@) ==> r == Ok::<(Rgb, Rgb), MadRError>(
            (rgb_at(response@, 6), rgb_at(response@, 10)),
        ),
        !response_ok(response@) ==> r == Err::<(Rgb, Rgb), MadRError>(
            MadRError::InvalidRgbFormat,
        ),
{
    if response.len() < FRAME_LEN || response[0] != FRAME_HEADER {
        return Err(MadRError::InvalidRgbFormat);
    }
    let rgb_a = Rgb { r: response[6], g: response[7], b: response[8] };
    let rgb_b = Rgb { r: response[10], g: response[11], b: response[12] };
    Ok((rgb_a, rgb_b))
}

/// The write frame that stores DPI stage pair `report_index`.
pub fn encode_dpi_pair(report_index: u8, stage_a: &DpiStage, stage_b: &DpiStage) -> (r: Vec<u8>)
    requires
        report_index <= 31,
        stage_fits(*stage_a),
        stage_fits(*stage_b),
    ensures
        r@ == dpi_pair_frame(report_index, *stage_a, *stage_b),
        frame_valid(r@),
{
    let report_id = DPI_REPORT_BASE + report_index * 8;
    let first = encode_dpi_record(stage_a);
    let second = encode_dpi_record(stage_b);
    pair_frame(report_id, first, second)
}

/// The write frame that stores RGB stage pair `report_index`.
pub fn encode_rgb_pair(report_index: u8, rgb_a: &Rgb, rgb_b: &Rgb) -> (r: Vec<u8>)
    requires
        report_index <= 27,
    ensures
        r@ == rgb_pair_frame(report_index, *rgb_a, *rgb_b),
        frame_valid(r@),
{
    let report_id = RGB_REPORT_BASE + report_index * 8;
    let first = (rgb_a.r, rgb_a.g, rgb_a.b, field_checksum(rgb_a.r, rgb_a.g, rgb_a.b));
    let second = (rgb_b.r, rgb_b.g, rgb_b.b, field_checksum(rgb_b.r, rgb_b.g, rgb_b.b));
    pair_frame(report_id, first, second)
}

/// Rewrites one DPI stage inside a stage-pair response: the slot of `stage`
/// takes `dpi`, the other slot keeps what the response held, and both are
/// encoded into the write frame for the pair.
pub fn rewrite_dpi_pair(stage: u8, dpi: &DpiStage, response: &[u8]) -> (r: Result<
    Vec<u8>,
    MadRError,
>)
    requires
        valid_stage(stage),
        stage_fits(*dpi),
    ensures
        response_ok(response@) ==> (r matches Ok(f) && f@ == ({
            let pair = with_slot((dpi_at(response@, 6), dpi_at(response@, 10)), stage, *dpi);
            dpi_pair_frame(report_index(stage), pair.0, pair.1)
        })),
        !response_ok(response@) ==> r == Err::<Vec<u8>, MadRError>(MadRError::InvalidDpiFormat),
{
    let (mut stage_a, mut stage_b) = match decode_dpi_pair(response) {
        Ok(pair) => pair,
        Err(e) => return Err(e),
    };
    proof {
        lemma_decoded_dpi_exact(response@, 6);
        lemma_decoded_dpi_exact(response@, 10);
    }
    if stage % 2 == 1 {
        stage_a = *dpi;
    } else {
        stage_b = *dpi;
    }
    Ok(encode_dpi_pair((stage + 1) / 2, &stage_a, &stage_b))
}

/// Rewrites one colour inside a stage-pair response: the slot of `stage`
/// takes `rgb`, the other slot keeps what the response held.
pub fn rewrite_rgb_pair(stage: u8, rgb: &Rgb, response: &[u8]) -> (r: Result<
    Vec<u8>,
    MadRError,
>)
    requires
        valid_stage(stage),
    ensures
        response_ok(response@) ==> (r matches Ok(f) && f@ == ({
            let pair = with_slot((rgb_at(response@, 6), rgb_at(response@, 10)), stage, *rgb);
            rgb_pair_frame(report_index(stage), pair.0, pair.1)
        })),
        !response_ok(response@) ==> r == Err::<Vec<u8>, MadRError>(MadRError::InvalidRgbFormat),
{
    let (mut rgb_a, mut rgb_b) = match decode_rgb_pair(response) {
        Ok(pair) => pair,
        Err(e) => return Err(e),
    };
    if stage % 2 == 1 {
        rgb_a = *rgb;
    } else {
        rgb_b = *rgb;
    }
    Ok(encode_rgb_pair((stage + 1) / 2, &rgb_a, &rgb_b))
}

/// The packed fields give back the stored values they were packed from.
proof fn lemma_raw_round_trip(x_raw: u32, y_raw: u32)
    requires
        x_raw < 4096,
        y_raw < 1024,
    ensures
        unpack_x((x_raw & 0xFF) as u8, pack_high(x_raw, y_raw)) == x_raw,
        unpack_y((y_raw & 0xFF) as u8, pack_high(x_raw, y_raw)) == y_raw,
{
    assert(unpack_x((x_raw & 0xFF) as u8, pack_high(x_raw, y_raw)) == x_raw) by (bit_vector)
        requires
            x_raw < 4096,
            y_raw < 1024,
    ;
    assert(unpack_y((y_raw & 0xFF) as u8, pack_high(x_raw, y_raw)) == y_raw) by (bit_vector)
        requires
            x_raw < 4096,
            y_raw < 1024,
    ;
}

/// A multiple of 50 from 50 up survives the trip through its stored value.
proof fn lemma_dpi_value_round_trip(d: u32)
    requires
        d % 50 == 0,
        d >= 50,
    ensures
        dpi_of_raw(dpi_raw(d)) == d,
{
    lemma_fundamental_div_mod(d as int, 50);
}

/// Every stage decoded from a record is one that encoding keeps exactly.
pub proof fn lemma_decoded_dpi_exact(r: Seq<u8>, at: int)
    requires
        0 <= at,
        at + 2 < r.len(),
    ensures
        dpi_exact(dpi_at(r, at)),
{
    let (xl, yl, h) = (r[at], r[at + 1], r[at + 2]);
    assert(unpack_x(xl, h) < 4096 && unpack_y(yl, h) < 1024) by (bit_vector);
    let xr = unpack_x(xl, h);
    let yr = unpack_y(yl, h);
    assert(((xr + 1) * 50) / 50 == xr + 1);
    assert(((yr + 1) * 50) / 50 == yr + 1);
}

/// Encoding an exactly representable stage and decoding its record gives the
/// stage back.
pub proof fn lemma_dpi_record_round_trip(s: DpiStage)
    requires
        dpi_exact(s),
    ensures
        dpi_at(dpi_record(s), 0) == s,
{
    lemma_raw_round_trip(dpi_raw(s.x_dpi), dpi_raw(s.y_dpi));
    lemma_dpi_value_round_trip(s.x_dpi);
    lemma_dpi_value_round_trip(s.y_dpi);
}

/// Decoding an encoded DPI stage pair gives back both stages, for every
/// DPI a caller may ask for (a multiple of 50 from 100 to 30000).
pub proof fn lemma_dpi_pair_round_trip(index: u8, a: DpiStage, b: DpiStage)
    requires
        valid_dpi(a.x_dpi as int),
        valid_dpi(a.y_dpi as int),
        valid_dpi(b.x_dpi as int),
        valid_dpi(b.y_dpi as int),
    ensures
        response_ok(dpi_pair_frame(index, a, b)),
        dpi_at(dpi_pair_frame(index, a, b), 6) == a,
        dpi_at(dpi_pair_frame(index, a, b), 10) == b,
{
    lemma_pair_frame_round_trip(index, a, b);
}

/// Decoding an encoded DPI stage pair gives back both stages whenever they
/// are exactly representable.
proof fn lemma_pair_frame_round_trip(index: u8, a: DpiStage, b: DpiStage)
    requires
        dpi_exact(a),
        dpi_exact(b),
    ensures
        response_ok(dpi_pair_frame(index, a, b)),
        dpi_at(dpi_pair_frame(index, a, b), 6) == a,
        dpi_at(dpi_pair_frame(index, a, b), 10) == b,
{
    let f = dpi_pair_frame(index, a, b);
    let ra = dpi_record(a);
    let rb = dpi_record(b);
    lemma_dpi_record_round_trip(a);
    lemma_dpi_record_round_trip(b);
    assert(f[6] == ra[0] && f[7] == ra[1] && f[8] == ra[2]);
    assert(f[10] == rb[0] && f[11] == rb[1] && f[12] == rb[2]);
}

/// Changing one stage through a read-modify-write stores the new stage and
/// leaves the other stage of its pair exactly as the device reported it.
pub proof fn lemma_partner_stage_kept(stage: u8, dpi: DpiStage, response: Seq<u8>)
    requires
        valid_stage(stage),
        valid_dpi(dpi.x_dpi as int),
        valid_dpi(dpi.y_dpi as int),
        response_ok(response),
    ensures
        ({
            let old_pair = (dpi_at(response, 6), dpi_at(response, 10));
            let new_pair = with_slot(old_pair, stage, dpi);
            let f = dpi_pair_frame(report_index(stage), new_pair.0, new_pair.1);
            &&& dpi_at(f, 6) == new_pair.0
            &&& dpi_at(f, 10) == new_pair.1
            &&& first_slot(stage) ==> dpi_at(f, 6) == dpi && dpi_at(f, 10) == old_pair.1
            &&& !first_slot(stage) ==> dpi_at(f, 6) == old_pair.0 && dpi_at(f, 10) == dpi
        }),
{
    lemma_decoded_dpi_exact(response, 6);
    lemma_decoded_dpi_exact(response, 10);
    let old_pair = (dpi_at(response, 6), dpi_at(response, 10));
    let new_pair = with_slot(old_pair, stage, dpi);
    lemma_pair_frame_round_trip(report_index(stage), new_pair.0, new_pair.1);
}

/// The colour written as `R,G,B`, each part a byte in decimal.
pub open spec fn rgb_of_text(s: Seq<char>) -> Option<Rgb> {
    let parts = split_on(s, ',');
    if parts.len() == 3 && decimal_u8(parts[0]) is Some && decimal_u8(parts[1]) is Some
        && decimal_u8(parts[2]) is Some {
        Some(Rgb { r: decimal_u8(parts[0])->0, g: decimal_u8(parts[1])->0, b: decimal_u8(parts[2])->0 })
    } else {
        None
    }
}

impl Rgb {
    /// Reads a colour written as `R,G,B`.
    pub fn from_str(s: &str) -> (r: Result<Rgb, MadRError>)
        ensures
            rgb_of_text(s@) matches Some(c) ==> r == Ok::<Rgb, MadRError>(c),
            rgb_of_text(s@) is None ==> (r matches Err(MadRError::InvalidRgbValue(_))),
    {
        let parts = split_fields(s, ',');
        if parts.len() != 3 {
            return Err(MadRError::InvalidRgbValue(message("Invalid RGB format. Expected format: R,G,B")));
        }
        let r = match parse_u8(parts[0].as_str()) {
            Some(v) => v,
            None => return Err(MadRError::InvalidRgbValue(message("Invalid R value"))),
        };
        let g = match parse_u8(parts[1].as_str()) {
            Some(v) => v,
            None => return Err(MadRError::InvalidRgbValue(message("Invalid G value"))),
        };
        let b = match parse_u8(parts[2].as_str()) {
            Some(v) => v,
            None => return Err(MadRError::InvalidRgbValue(message("Invalid B value"))),
        };
        Ok(Rgb { r, g, b })
    }
}

/// A validated request to change one stage: a new DPI, a new colour, or both.
#[derive(Debug, Clone, Copy, PartialEq, Eq)]
pub struct StageEdit {
    pub stage: u8,
    pub dpi: Option<DpiStage>,
    pub rgb: Option<Rgb>,
}

impl StageEdit {
    /// The stage pair that holds the edited stage.
    pub fn report_index(&self) -> (r: u8)
        requires
            valid_stage(self.stage),
        ensures
            r == report_index(self.stage),
            1 <= r <= 4,
    {
        (self.stage + 1) / 2
    }
}

/// The DPI part of a stage request is acceptable: something to change, a
/// stage from 1 to 8, and valid DPI values where given (`y` counts only
/// with `x`).
pub open spec fn dpi_request_ok(stage: u8, x_dpi: Option<u16>, y_dpi: Option<u16>, has_rgb: bool) -> bool {
    &&& x_dpi is Some || has_rgb
    &&& valid_stage(stage)
    &&& x_dpi is Some ==> valid_dpi(x_dpi->0 as int)
    &&& x_dpi is Some && y_dpi is Some ==> valid_dpi(y_dpi->0 as int)
}

/// The stage asked for: `y` defaults to `x`.
pub open spec fn requested_stage(x: u16, y_dpi: Option<u16>) -> DpiStage {
    DpiStage {
        x_dpi: x as u32,
        y_dpi: match y_dpi {
            Some(y) => y as u32,
            None => x as u32,
        },
    }
}

/// Validates a request to change stage `stage`, before any frame is built:
/// at least one of DPI and colour, a stage from 1 to 8, DPI values that are
/// multiples of 50 from 100 to 30000, and a colour written as `R,G,B`.
pub fn modify_stage(stage: u8, x_dpi: Option<u16>, y_dpi: Option<u16>, rgb: Option<&str>) -> (r:
    Result<StageEdit, MadRError>)
    ensures
        !dpi_request_ok(stage, x_dpi, y_dpi, rgb is Some) ==> (r matches Err(
            MadRError::InvalidDpiSetting(_),
        )),
        dpi_request_ok(stage, x_dpi, y_dpi, rgb is Some) && rgb is Some && rgb_of_text(rgb->0@)
            is None ==> (r matches Err(MadRError::InvalidRgbValue(_))),
        dpi_request_ok(stage, x_dpi, y_dpi, rgb is Some) && (rgb is None || rgb_of_text(
            rgb->0@,
        ) is Some) ==> r == Ok::<StageEdit, MadRError>(
            (StageEdit {
                stage,
                dpi: if x_dpi is Some {
                    Some(requested_stage(x_dpi->0, y_dpi))
                } else {
                    None
                },
                rgb: if rgb is Some {
                    rgb_of_text(rgb->0@)
                } else {
                    None
                },
            }),
        ),
{
    if x_dpi.is_none() && rgb.is_none() {
        return Err(MadRError::InvalidDpiSetting(message("At least one of X DPI or RGB must be specified")));
    }
    if stage < 1 || stage > 8 {
        return Err(MadRError::InvalidDpiSetting(message("Stage must be between 1 and 8")));
    }
    let dpi = match x_dpi {
        Some(x) => {
            if !(x % 50 == 0 && 100 <= x && x <= 30000) {
                return Err(MadRError::InvalidDpiSetting(
                    message("X DPI must be between 100 and 30000 and a multiple of 50"),
                ));
            }
            let y = match y_dpi {
                Some(y) => {
                    if !(y % 50 == 0 && 100 <= y && y <= 30000) {
                        return Err(MadRError::InvalidDpiSetting(
                            message("Y DPI must be between 100 and 30000 and a multiple of 50"),
                        ));
                    }
                    y
                },
                None => x,
            };
            Some(DpiStage { x_dpi: x as u32, y_dpi: y as u32 })
        },
        None => None,
    };
    let colour = match rgb {
        Some(text) => match Rgb::from_str(text) {
            Ok(c) => Some(c),
            Err(e) => return Err(e),
        },
        None => None,
    };
    Ok(StageEdit { stage, dpi, rgb: colour })
}

} // verus!
