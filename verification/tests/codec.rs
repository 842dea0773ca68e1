use mics_vz_89te::Measurements;
use mics_vz_89te::PacketParseError;
use mics_vz_89te::RevisionDate;
use mics_vz_89te::driver::calibration_result_of_frame;
use mics_vz_89te::driver::measurement_result_of_frame;
use mics_vz_89te::driver::revision_result_of_frame;
use mics_vz_89te::driver::validate_response_frame;
use mics_vz_89te::decode::calibration_ppm_byte;
use mics_vz_89te::decode::calibration_r0_from_response;
use mics_vz_89te::frame::command_frame_is_valid;
use mics_vz_89te::frame::make_command_frame;
use mics_vz_89te::frame::response_frame_is_valid;
use mics_vz_89te::gen_checksum;

#[test]
fn checksum_is_deterministic() {
    let bytes = [0x27u8, 0x3C, 0, 0xBA, 0xBA];
    assert_eq!(gen_checksum(&bytes), gen_checksum(&bytes));
}

#[test]
fn checksum_known_values() {
    assert_eq!(gen_checksum(&[0x0C, 0, 0, 0, 0]), 0xF3);
    assert_eq!(gen_checksum(&[0x0D, 0, 0, 0, 0]), 0xF2);
    assert_eq!(gen_checksum(&[0x10, 0, 0, 0, 0]), 0xEF);
    assert_eq!(gen_checksum(&[0x27, 0x3C, 0, 0xBA, 0xBA]), 0x27);
    assert_eq!(gen_checksum(&[]), 0xFF);
}

#[test]
fn checksum_folds_high_byte_of_sum() {
    // Five 0xFF bytes sum to 0x04FB; low and high byte add to 0xFF.
    assert_eq!(gen_checksum(&[0xFF, 0xFF, 0xFF, 0xFF, 0xFF]), 0x00);
    // Sum 0x2FF: low 0xFF plus high 0x02 wraps to 0x01, checksum 0xFE.
    assert_eq!(gen_checksum(&[0xFF, 0xFF, 0xFF, 0x02, 0x00]), 0xFE);
}

#[test]
fn command_frame_round_trip() {
    let opcodes = [0x0Cu8, 0x0D, 0x10, 0x08, 0x00, 0xFF];
    let payloads = [0x00u8, 0x62, 0xFF, 0x01, 0x80, 0x13];
    for &opcode in opcodes.iter() {
        for &payload in payloads.iter() {
            let frame = make_command_frame(opcode, payload);
            assert_eq!(frame.len(), 6);
            assert!(command_frame_is_valid(&frame));
        }
    }
}

#[test]
fn status_command_frame_bytes() {
    let frame = make_command_frame(0x0C, 0);
    assert_eq!(frame, vec![0x0C, 0, 0, 0, 0, 0xF3]);
}

#[test]
fn response_validation_rejects_a_flipped_checksum() {
    let good = vec![0x27u8, 0x3C, 0, 0xBA, 0xBA, 0, 0x27];
    let bad = vec![0x27u8, 0x3C, 0, 0xBA, 0xBA, 0, 0x26];
    assert!(response_frame_is_valid(&good));
    assert!(!response_frame_is_valid(&bad));
}

#[test]
fn measurements_decode_known_response() {
    let response = vec![0x27u8, 0x3C, 0, 0xBA, 0xBA, 0, 0x27];
    let m = Measurements::from_response(&response);
    assert_eq!(m.co2_raw, 47);
    assert_eq!(m.voc_raw, 26);
    assert_eq!(m.co2_ppm(), 728);
    assert_eq!(m.voc_ppb(), 113);
}

#[test]
fn measurements_decode_saturates_each_byte() {
    let response = vec![0x0Cu8, 0x00, 0, 0, 0, 0, 0xF3];
    let m = Measurements::from_response(&response);
    assert_eq!(m.co2_raw, 0);
    assert_eq!(m.voc_raw, 0);
    assert_eq!(m.co2_ppm(), 400);
    assert_eq!(m.voc_ppb(), 0);
    // At exactly the offset the decoded value is still zero.
    let response = vec![13u8, 13, 0, 0, 0, 0, 0xE5];
    let m = Measurements::from_response(&response);
    assert_eq!(m.co2_ppm(), 400);
    assert_eq!(m.voc_ppb(), 0);
}

#[test]
fn measurements_decode_range_extremes() {
    let response = vec![0xFFu8, 0xFF, 0, 0, 0, 0, 0x00];
    let m = Measurements::from_response(&response);
    assert_eq!(m.co2_raw, 242);
    assert_eq!(m.voc_raw, 242);
    assert_eq!(m.co2_ppm(), 2090);
    assert_eq!(m.voc_ppb(), 1056);
}

#[test]
fn revision_decode_is_a_raw_transcription() {
    let response = vec![0x10u8, 0x03, 0x11, 0x48, 0, 0, 0x93];
    let date = RevisionDate::from_response(&response);
    assert_eq!(date, RevisionDate { year: 2016, month: 3, day: 17 });
    // Out-of-range calendar components are transcribed, not validated.
    let response = vec![0xFFu8, 13, 32, 0, 0, 0, 0];
    let date = RevisionDate::from_response(&response);
    assert_eq!(date, RevisionDate { year: 2255, month: 13, day: 32 });
}

#[test]
fn calibration_value_is_little_endian() {
    let response = vec![0xFBu8, 0x01, 0, 0, 0, 0, 0x03];
    assert_eq!(calibration_r0_from_response(&response), 507);
    let response = vec![0x01u8, 0xFB, 0, 0, 0, 0, 0x03];
    assert_eq!(calibration_r0_from_response(&response), 0xFB01);
}

#[test]
fn calibration_byte_known_values() {
    assert_eq!(calibration_ppm_byte(1000), 0x62);
    // Near the two ends of the open range.
    assert_eq!(calibration_ppm_byte(401), 13);
    assert_eq!(calibration_ppm_byte(1999), 241);
}

#[test]
fn checksum_wraps_its_sixteen_bit_accumulator() {
    // 300 bytes of 0xFF sum to 76500, which wraps to 0x2AD4 in the
    // 16-bit accumulator: 0xD4 + 0x2A = 0xFE, and 0xFF - 0xFE = 0x01.
    let long = vec![0xFFu8; 300];
    assert_eq!(gen_checksum(&long), 0x01);
}

#[test]
fn validate_passes_a_valid_frame_through_unchanged() {
    let frame = vec![0x27u8, 0x3C, 0, 0xBA, 0xBA, 0, 0x27];
    let r: Result<Vec<u8>, PacketParseError<u8>> = validate_response_frame(frame.clone());
    assert_eq!(r.unwrap(), frame);
}

#[test]
fn validate_discards_a_mismatched_frame() {
    let frame = vec![0x27u8, 0x3C, 0, 0xBA, 0xBA, 0, 0x26];
    let r: Result<Vec<u8>, PacketParseError<u8>> = validate_response_frame(frame);
    assert!(matches!(r, Err(PacketParseError::WrongChecksum)));
}

#[test]
fn measurement_result_follows_the_frame_checksum() {
    let good = vec![0x27u8, 0x3C, 0, 0xBA, 0xBA, 0, 0x27];
    let r: Result<Measurements, PacketParseError<u8>> = measurement_result_of_frame(good);
    let m = r.unwrap();
    assert_eq!(m.co2_ppm(), 728);
    assert_eq!(m.voc_ppb(), 113);

    let bad = vec![0x27u8, 0x3C, 0, 0xBA, 0xBA, 0, 0x26];
    let r: Result<Measurements, PacketParseError<u8>> = measurement_result_of_frame(bad);
    assert!(matches!(r, Err(PacketParseError::WrongChecksum)));
}

#[test]
fn revision_result_follows_the_frame_checksum() {
    let good = vec![0x10u8, 0x03, 0x11, 0x48, 0, 0, 0x93];
    let r: Result<RevisionDate, PacketParseError<u8>> = revision_result_of_frame(good);
    assert_eq!(r.unwrap(), RevisionDate { year: 2016, month: 3, day: 17 });

    let bad = vec![0x10u8, 0x03, 0x11, 0x48, 0, 0, 0x92];
    let r: Result<RevisionDate, PacketParseError<u8>> = revision_result_of_frame(bad);
    assert!(matches!(r, Err(PacketParseError::WrongChecksum)));
}

#[test]
fn calibration_result_follows_the_frame_checksum() {
    let good = vec![0xFBu8, 0x01, 0, 0, 0, 0, 0x03];
    let r: Result<u16, PacketParseError<u8>> = calibration_result_of_frame(good);
    assert_eq!(r.unwrap(), 507);

    let bad = vec![0xFBu8, 0x01, 0, 0, 0, 0, 0x04];
    let r: Result<u16, PacketParseError<u8>> = calibration_result_of_frame(bad);
    assert!(matches!(r, Err(PacketParseError::WrongChecksum)));
}
