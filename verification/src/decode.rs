//! Decoding of validated response frames into physical values.
//!
//! Once a 7-byte response has passed its checksum, decoding is total:
//! the status response carries the VOC and CO2 raw bytes at offsets 0
//! and 1, the revision response carries year-offset, month and day at
//! offsets 0 to 2, and the calibration response carries a little-endian
//! 16-bit resistance in its first two bytes.

use vstd::prelude::*;

verus! {

/// Measurements decoded from a status response.
///
/// The sensor reports each concentration as one raw byte with an offset
/// of 13; the decoded physical values are exact rationals of that byte:
/// CO2 in ppm is `raw * 1600 / 229 + 400` (range 400 to 2000) and VOC in
/// ppb is `raw * 1000 / 229` (range 0 to 1000). The value object stores
/// the saturated raw bytes, so no precision is lost; [`Measurements::co2_ppm`]
/// and [`Measurements::voc_ppb`] expose the truncated integer values.
#[derive(Debug, Clone, Copy, PartialEq, Eq, Structural)]
pub struct Measurements {
    /// Raw CO2 byte after subtracting the offset 13, saturated at zero.
    pub co2_raw: u8,
    /// Raw VOC byte after subtracting the offset 13, saturated at zero.
    pub voc_raw: u8,
}

/// The date of revision of the sensor firmware: a raw transcription of
/// the revision response, with no calendar validation.
#[derive(Debug, Clone, Copy, PartialEq, Eq, Structural)]
pub struct RevisionDate {
    /// Absolute year; the sensor reports it as an offset from 2000.
    pub year: u16,
    /// Month as reported, nominally 1 to 12.
    pub month: u8,
    /// Day as reported, nominally 1 to 31.
    pub day: u8,
}

/// A raw byte minus the offset 13, saturated at zero instead of
/// wrapping below it.
pub open spec fn spec_sat_sub_13(b: u8) -> u8 {
    if b >= 13 {
        (b - 13) as u8
    } else {
        0
    }
}

/// The measurements a status response frame decodes to.
pub open spec fn spec_measurements(f: Seq<u8>) -> Measurements
    recommends
        f.len() == 7,
{
    Measurements { co2_raw: spec_sat_sub_13(f[1]), voc_raw: spec_sat_sub_13(f[0]) }
}

/// The revision date a revision response frame decodes to.
pub open spec fn spec_revision(f: Seq<u8>) -> RevisionDate
    recommends
        f.len() == 7,
{
    RevisionDate { year: (f[0] + 2000) as u16, month: f[1], day: f[2] }
}

/// The calibration resistance a calibration response frame decodes to:
/// its first two bytes as a little-endian 16-bit value, in kOhms.
pub open spec fn spec_calibration_r0(f: Seq<u8>) -> u16
    recommends
        f.len() == 7,
{
    (f[0] + 0x100 * f[1]) as u16
}

/// The payload byte of a calibration-write command for a target CO2
/// concentration in ppm: the inverse of the CO2 scaling, truncated.
pub open spec fn spec_calibration_byte(ppm: u16) -> u8
    recommends
        400 < ppm < 2000,
{
    ((ppm - 400) * 229 / 1600 + 13) as u8
}

impl Measurements {
    /// Decode a validated status response.
    pub fn from_response(response: &Vec<u8>) -> (m: Measurements)
        requires
            response@.len() == 7,
        ensures
            m == spec_measurements(response@),
    {
        let co2_byte = response[1];
        let voc_byte = response[0];
        Measurements {
            co2_raw: if co2_byte >= 13 { co2_byte - 13 } else { 0 },
            voc_raw: if voc_byte >= 13 { voc_byte - 13 } else { 0 },
        }
    }

    /// The CO2 concentration in ppm, as an exact rational of the raw byte.
    pub open spec fn spec_co2_ppm(self) -> int {
        self.co2_raw * 1600 / 229 + 400
    }

    /// The VOC concentration in ppb, as an exact rational of the raw byte.
    pub open spec fn spec_voc_ppb(self) -> int {
        self.voc_raw * 1000 / 229
    }

    /// The CO2 concentration in ppm, truncated to an integer.
    pub fn co2_ppm(&self) -> (r: u32)
        ensures
            r == self.spec_co2_ppm(),
    {
        (self.co2_raw as u32) * 1600 / 229 + 400
    }

    /// The VOC concentration in ppb, truncated to an integer.
    pub fn voc_ppb(&self) -> (r: u32)
        ensures
            r == self.spec_voc_ppb(),
    {
        (self.voc_raw as u32) * 1000 / 229
    }
}

impl RevisionDate {
    /// Decode a validated revision response.
    pub fn from_response(response: &Vec<u8>) -> (r: RevisionDate)
        requires
            response@.len() == 7,
        ensures
            r == spec_revision(response@),
    {
        RevisionDate {
            year: response[0] as u16 + 2000,
            month: response[1],
            day: response[2],
        }
    }
}

/// Decode a validated calibration-read response: bytes 0 and 1 as a
/// little-endian 16-bit resistance value in kOhms.
pub fn calibration_r0_from_response(response: &Vec<u8>) -> (r: u16)
    requires
        response@.len() == 7,
    ensures
        r == spec_calibration_r0(response@),
{
    response[0] as u16 + 0x100 * (response[1] as u16)
}

/// Compute the payload byte of a calibration-write command for a target
/// CO2 concentration in ppm.
pub fn calibration_ppm_byte(ppm: u16) -> (r: u8)
    requires
        400 < ppm < 2000,
    ensures
        r == spec_calibration_byte(ppm),
{
    let scaled: u32 = ((ppm - 400) as u32) * 229 / 1600;
    scaled as u8 + 13
}

/// Measurement decode saturates: when a raw byte is below the offset 13
/// the decoded offset is zero, so CO2 floors at 400 ppm and VOC at 0 ppb
/// rather than wrapping below the range.
pub proof fn lemma_measurement_saturates(f: Seq<u8>)
    requires
        f.len() == 7,
        f[0] < 13,
        f[1] < 13,
    ensures
        spec_measurements(f).co2_raw == 0,
        spec_measurements(f).voc_raw == 0,
        spec_measurements(f).spec_co2_ppm() == 400,
        spec_measurements(f).spec_voc_ppb() == 0,
{
}

} // verus!
