//! The sensor driver.
//!
//! All four operations funnel through one primitive: send a 6-byte
//! command frame, wait a fixed settling time, receive a 7-byte response
//! frame, verify its checksum, and decode the validated payload. What a
//! delivered response frame yields — the decoded value when its checksum
//! matches, [`PacketParseError::WrongChecksum`] when it does not, with
//! the frame discarded and no partial data surfaced — is fixed, for
//! every frame, by [`validate_response_frame`] and the
//! `*_result_of_frame` functions; the driver methods wire them to the
//! bus, whose own failures are wrapped as [`PacketParseError::BusError`].

use vstd::prelude::*;
use crate::bus::Delay;
use crate::bus::I2cBus;
use crate::decode::Measurements;
use crate::decode::RevisionDate;
use crate::decode::calibration_ppm_byte;
use crate::decode::calibration_r0_from_response;
use crate::decode::spec_calibration_r0;
use crate::decode::spec_measurements;
use crate::decode::spec_revision;
use crate::error::PacketParseError;
use crate::frame::MICS_VZ_89TE_ADDR;
use crate::frame::MICS_VZ_89TE_ADDR_CMD_GETSTATUS;
use crate::frame::MICS_VZ_89TE_DATE_CODE;
use crate::frame::MICS_VZ_89TE_GET_CALIBR_VAL;
use crate::frame::MICS_VZ_89TE_SET_CALIBR_PPM;
use crate::frame::make_command_frame;
use crate::frame::response_frame_is_valid;
use crate::frame::response_frame_valid;

verus! {

/// `m` is the decoding of some checksum-valid status response frame.
pub open spec fn measurements_from_valid_response(f: Seq<u8>, m: Measurements) -> bool {
    response_frame_valid(f) && m == spec_measurements(f)
}

/// `m` is the decoding of at least one checksum-valid status response.
pub open spec fn is_decoded_measurement(m: Measurements) -> bool {
    exists|f: Seq<u8>| measurements_from_valid_response(f, m)
}

/// `d` is the decoding of some checksum-valid revision response frame.
pub open spec fn revision_from_valid_response(f: Seq<u8>, d: RevisionDate) -> bool {
    response_frame_valid(f) && d == spec_revision(f)
}

/// `d` is the decoding of at least one checksum-valid revision response.
pub open spec fn is_decoded_revision(d: RevisionDate) -> bool {
    exists|f: Seq<u8>| revision_from_valid_response(f, d)
}

/// `v` is the decoding of some checksum-valid calibration response frame.
pub open spec fn calibration_from_valid_response(f: Seq<u8>, v: u16) -> bool {
    response_frame_valid(f) && v == spec_calibration_r0(f)
}

/// `v` is the decoding of at least one checksum-valid calibration response.
pub open spec fn is_decoded_calibration(v: u16) -> bool {
    exists|f: Seq<u8>| calibration_from_valid_response(f, v)
}

/// Validate a delivered 7-byte response frame: a frame whose trailing
/// byte matches the checksum recomputed over its leading bytes passes
/// through unchanged; any other frame is discarded and reported as a
/// checksum mismatch. Exactly one of the two happens, for every frame.
pub fn validate_response_frame<E>(frame: Vec<u8>) -> (r: Result<Vec<u8>, PacketParseError<E>>)
    requires
        frame@.len() == 7,
    ensures
        r is Ok <==> response_frame_valid(frame@),
        r is Ok ==> r->Ok_0@ == frame@,
        r is Err ==> r->Err_0 is WrongChecksum,
{
    if response_frame_is_valid(&frame) {
        Ok(frame)
    } else {
        Err(PacketParseError::WrongChecksum)
    }
}

/// What a delivered status response yields: the decoded measurements iff
/// the frame's checksum matches, and a checksum error otherwise.
pub fn measurement_result_of_frame<E>(frame: Vec<u8>) -> (r: Result<
    Measurements,
    PacketParseError<E>,
>)
    requires
        frame@.len() == 7,
    ensures
        r is Ok <==> response_frame_valid(frame@),
        r is Ok ==> r->Ok_0 == spec_measurements(frame@),
        r is Err ==> r->Err_0 is WrongChecksum,
{
    match validate_response_frame(frame) {
        Ok(valid) => Ok(Measurements::from_response(&valid)),
        Err(e) => Err(e),
    }
}

/// What a delivered revision response yields: the transcribed date iff
/// the frame's checksum matches, and a checksum error otherwise.
pub fn revision_result_of_frame<E>(frame: Vec<u8>) -> (r: Result<
    RevisionDate,
    PacketParseError<E>,
>)
    requires
        frame@.len() == 7,
    ensures
        r is Ok <==> response_frame_valid(frame@),
        r is Ok ==> r->Ok_0 == spec_revision(frame@),
        r is Err ==> r->Err_0 is WrongChecksum,
{
    match validate_response_frame(frame) {
        Ok(valid) => Ok(RevisionDate::from_response(&valid)),
        Err(e) => Err(e),
    }
}

/// What a delivered calibration response yields: the little-endian
/// resistance value iff the frame's checksum matches, and a checksum
/// error otherwise.
pub fn calibration_result_of_frame<E>(frame: Vec<u8>) -> (r: Result<u16, PacketParseError<E>>)
    requires
        frame@.len() == 7,
    ensures
        r is Ok <==> response_frame_valid(frame@),
        r is Ok ==> r->Ok_0 == spec_calibration_r0(frame@),
        r is Err ==> r->Err_0 is WrongChecksum,
{
    match validate_response_frame(frame) {
        Ok(valid) => Ok(calibration_r0_from_response(&valid)),
        Err(e) => Err(e),
    }
}

/// Driver for the MICS-VZ-89TE sensor, exclusively owning its bus handle.
pub struct MicsVz89Te<I2C> {
    i2c: I2C,
}

impl<I2C> MicsVz89Te<I2C> {
    /// The bus handle the driver owns.
    pub closed spec fn bus(self) -> I2C {
        self.i2c
    }

    /// Releases the underlying bus and destroys the driver, handing the
    /// handle back to the caller.
    pub fn release(self) -> (r: I2C)
        ensures
            r == self.bus(),
    {
        self.i2c
    }
}

impl<I2C: I2cBus> MicsVz89Te<I2C> {
    /// Time (in millis) to wait until the sensor response should be valid.
    pub const WAIT_ON_RESPONSE_TIME: u16 = 100;

    /// Create a new driver on the supplied bus.
    pub fn new(i2c: I2C) -> (r: Self)
        ensures
            r.bus() == i2c,
    {
        MicsVz89Te { i2c }
    }

    /// Read measurements from the sensor: this is the split pair —
    /// [`MicsVz89Te::start_measurement`], the settling wait, then
    /// [`MicsVz89Te::get_measurement_result`] — run back to back with a
    /// blocking delay, so the two paths return the same result for the
    /// same delivered frame.
    ///
    /// This function blocks a minimum time of
    /// [`MicsVz89Te::WAIT_ON_RESPONSE_TIME`] milliseconds.
    pub fn read_measurements<D: Delay>(&mut self, delay: &mut D) -> (r: Result<
        Measurements,
        PacketParseError<I2C::Error>,
    >)
        ensures
            r is Ok ==> is_decoded_measurement(r->Ok_0),
    {
        match self.start_measurement() {
            Ok(()) => {},
            Err(e) => {
                return Err(e);
            },
        }
        delay.delay_ms(Self::WAIT_ON_RESPONSE_TIME);
        self.get_measurement_result()
    }

    /// Start a measurement request without waiting for the response, so
    /// a caller can perform the settling wait with its own delay
    /// mechanism and then call [`MicsVz89Te::get_measurement_result`].
    /// The two halves must be paired; only transport errors can occur
    /// here.
    pub fn start_measurement(&mut self) -> (r: Result<(), PacketParseError<I2C::Error>>)
        ensures
            r is Err ==> r->Err_0 is BusError,
    {
        let frame = make_command_frame(MICS_VZ_89TE_ADDR_CMD_GETSTATUS, 0);
        self.send_request(frame.as_slice())
    }

    /// Receive the response requested by an earlier
    /// [`MicsVz89Te::start_measurement`], after the settling wait, and
    /// hand it to [`measurement_result_of_frame`].
    pub fn get_measurement_result(&mut self) -> (r: Result<
        Measurements,
        PacketParseError<I2C::Error>,
    >)
        ensures
            r is Ok ==> is_decoded_measurement(r->Ok_0),
    {
        let response = match self.receive_raw() {
            Ok(resp) => resp,
            Err(e) => {
                return Err(e);
            },
        };
        let ghost f0 = response@;
        let r = measurement_result_of_frame(response);
        proof {
            if r is Ok {
                assert(is_decoded_measurement(r->Ok_0)) by {
                    assert(measurements_from_valid_response(f0, r->Ok_0));
                }
            }
        }
        r
    }

    /// Read the revision date of the sensor firmware: the delivered
    /// response goes through [`revision_result_of_frame`].
    ///
    /// This function blocks a minimum time of
    /// [`MicsVz89Te::WAIT_ON_RESPONSE_TIME`] milliseconds.
    pub fn read_revision<D: Delay>(&mut self, delay: &mut D) -> (r: Result<
        RevisionDate,
        PacketParseError<I2C::Error>,
    >)
        ensures
            r is Ok ==> is_decoded_revision(r->Ok_0),
    {
        let frame = make_command_frame(MICS_VZ_89TE_DATE_CODE, 0);
        let response = match self.exchange_raw(frame.as_slice(), delay) {
            Ok(resp) => resp,
            Err(e) => {
                return Err(e);
            },
        };
        let ghost f0 = response@;
        let r = revision_result_of_frame(response);
        proof {
            if r is Ok {
                assert(is_decoded_revision(r->Ok_0)) by {
                    assert(revision_from_valid_response(f0, r->Ok_0));
                }
            }
        }
        r
    }

    /// Read the calibration value R0 of the sensor in kOhms: the
    /// delivered response goes through [`calibration_result_of_frame`].
    ///
    /// This function blocks a minimum time of
    /// [`MicsVz89Te::WAIT_ON_RESPONSE_TIME`] milliseconds.
    pub fn read_calibration_r0<D: Delay>(&mut self, delay: &mut D) -> (r: Result<
        u16,
        PacketParseError<I2C::Error>,
    >)
        ensures
            r is Ok ==> is_decoded_calibration(r->Ok_0),
    {
        let frame = make_command_frame(MICS_VZ_89TE_GET_CALIBR_VAL, 0);
        let response = match self.exchange_raw(frame.as_slice(), delay) {
            Ok(resp) => resp,
            Err(e) => {
                return Err(e);
            },
        };
        let ghost f0 = response@;
        let r = calibration_result_of_frame(response);
        proof {
            if r is Ok {
                assert(is_decoded_calibration(r->Ok_0)) by {
                    assert(calibration_from_valid_response(f0, r->Ok_0));
                }
            }
        }
        r
    }

    /// Write a calibration CO2 reference concentration in ppm, measured
    /// by another device. The concentration must lie strictly between
    /// 400 and 2000 ppm; no response is read back, so only transport
    /// errors can occur.
    pub fn write_calibration_ppm(&mut self, ppm: u16) -> (r: Result<
        (),
        PacketParseError<I2C::Error>,
    >)
        requires
            400 < ppm < 2000,
        ensures
            r is Err ==> r->Err_0 is BusError,
    {
        let byte = calibration_ppm_byte(ppm);
        self.write_calibration_raw(byte)
    }

    /// Transmit a calibration-write frame whose payload byte the caller
    /// has already computed from a reference concentration.
    pub fn write_calibration_raw(&mut self, send_ppm: u8) -> (r: Result<
        (),
        PacketParseError<I2C::Error>,
    >)
        ensures
            r is Err ==> r->Err_0 is BusError,
    {
        let frame = make_command_frame(MICS_VZ_89TE_SET_CALIBR_PPM, send_ppm);
        self.send_request(frame.as_slice())
    }

    /// Send a command frame, wait the settling time, and receive the
    /// delivered 7-byte response, not yet validated.
    fn exchange_raw<D: Delay>(&mut self, cmd_buffer: &[u8], delay: &mut D) -> (r: Result<
        Vec<u8>,
        PacketParseError<I2C::Error>,
    >)
        requires
            cmd_buffer@.len() == 6,
        ensures
            r is Ok ==> r->Ok_0@.len() == 7,
            r is Err ==> r->Err_0 is BusError,
    {
        match self.send_request(cmd_buffer) {
            Ok(()) => {},
            Err(e) => {
                return Err(e);
            },
        }
        delay.delay_ms(Self::WAIT_ON_RESPONSE_TIME);
        self.receive_raw()
    }

    /// Transmit one 6-byte command frame to the sensor's bus address.
    fn send_request(&mut self, cmd_buffer: &[u8]) -> (r: Result<(), PacketParseError<I2C::Error>>)
        requires
            cmd_buffer@.len() == 6,
        ensures
            r is Err ==> r->Err_0 is BusError,
    {
        match self.i2c.write(MICS_VZ_89TE_ADDR, cmd_buffer) {
            Ok(()) => Ok(()),
            Err(e) => Err(PacketParseError::BusError(e)),
        }
    }

    /// Read the delivered 7-byte response frame, wrapping a bus failure
    /// verbatim; validation is the next step's concern.
    fn receive_raw(&mut self) -> (r: Result<Vec<u8>, PacketParseError<I2C::Error>>)
        ensures
            r is Ok ==> r->Ok_0@.len() == 7,
            r is Err ==> r->Err_0 is BusError,
    {
        let mut buffer: Vec<u8> = Vec::new();
        let mut i: usize = 0;
        while i < 7
            invariant
                buffer@.len() == i,
                0 <= i <= 7,
            decreases 7 - i,
        {
            buffer.push(0);
            i = i + 1;
        }
        match self.i2c.read(MICS_VZ_89TE_ADDR, &mut buffer) {
            Ok(()) => Ok(buffer),
            Err(e) => Err(PacketParseError::BusError(e)),
        }
    }
}

} // verus!
