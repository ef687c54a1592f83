use kinect::serial::{serial_length_result, serial_number_result, strip_nul};
use kinect::status::{BUFFER_RESULT_FAILED, BUFFER_RESULT_SUCCEEDED, BUFFER_RESULT_TOO_SMALL};
use kinect::KinectError;

/// A stand-in for the native serial-number query: with no buffer it reports
/// the length needed and "too small"; with a buffer of that length it fills
/// it with the serial number and its NUL terminator and reports success.
fn mock_query(serial: &[u8], buffer: Option<&mut Vec<u8>>) -> (u32, usize) {
    let needed = serial.len() + 1;
    match buffer {
        None => (BUFFER_RESULT_TOO_SMALL, needed),
        Some(b) => {
            if b.len() < needed {
                return (BUFFER_RESULT_TOO_SMALL, needed);
            }
            b[..serial.len()].copy_from_slice(serial);
            b[serial.len()] = 0;
            (BUFFER_RESULT_SUCCEEDED, needed)
        }
    }
}

fn read_serial(serial: &[u8]) -> (usize, Result<String, KinectError>) {
    let (status, length) = mock_query(serial, None);
    let n = serial_length_result(status, length).unwrap();
    let mut buffer = vec![0u8; n];
    let (status, _) = mock_query(serial, Some(&mut buffer));
    (n, serial_number_result(status, &buffer))
}

#[test]
fn serial_number_through_both_phases() {
    let (n, r) = read_serial(b"000123456789");
    let s = r.unwrap();
    assert_eq!(s, "000123456789");
    assert!(s.len() <= n);
    assert!(!s.contains('\0'));
}

#[test]
fn empty_serial_number() {
    let (n, r) = read_serial(b"");
    assert_eq!(n, 1);
    assert_eq!(r, Ok(String::new()));
}

#[test]
fn first_phase_must_report_too_small() {
    assert_eq!(serial_length_result(BUFFER_RESULT_TOO_SMALL, 13), Ok(13));
    assert_eq!(
        serial_length_result(BUFFER_RESULT_SUCCEEDED, 13),
        Err(KinectError::UnableToGetSerialNumber)
    );
    assert_eq!(
        serial_length_result(BUFFER_RESULT_FAILED, 13),
        Err(KinectError::UnableToGetSerialNumber)
    );
}

#[test]
fn second_phase_must_report_success() {
    let buffer = b"123\0".to_vec();
    assert_eq!(
        serial_number_result(BUFFER_RESULT_TOO_SMALL, &buffer),
        Err(KinectError::UnableToGetSerialNumber)
    );
    assert_eq!(
        serial_number_result(BUFFER_RESULT_FAILED, &buffer),
        Err(KinectError::UnableToGetSerialNumber)
    );
}

#[test]
fn invalid_utf8_is_rejected() {
    let buffer = vec![0x31, 0xff, 0x32, 0];
    assert_eq!(
        serial_number_result(BUFFER_RESULT_SUCCEEDED, &buffer),
        Err(KinectError::UnableToGetSerialNumber)
    );
}

#[test]
fn nul_bytes_at_both_ends_are_stripped() {
    let buffer = vec![0, 0, b'A', 0, b'B', 0, 0];
    assert_eq!(strip_nul(&buffer), vec![b'A', 0, b'B']);
    assert_eq!(
        serial_number_result(BUFFER_RESULT_SUCCEEDED, &buffer),
        Ok(String::from("A\0B"))
    );
    assert_eq!(strip_nul(&vec![0, 0, 0]), Vec::<u8>::new());
    assert_eq!(strip_nul(&vec![]), Vec::<u8>::new());
}

#[test]
fn multibyte_text_is_decoded() {
    let mut buffer = "Zürich-7".as_bytes().to_vec();
    buffer.push(0);
    assert_eq!(
        serial_number_result(BUFFER_RESULT_SUCCEEDED, &buffer),
        Ok(String::from("Zürich-7"))
    );
}
