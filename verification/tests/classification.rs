use nimble_status::codes::{
    signed_of, unsigned_of, BLE_ATT_ERR_INVALID_HANDLE, BLE_HS_EALREADY, BLE_HS_EDONE,
    BLE_HS_EINVAL, BLE_HS_ERR_ATT_BASE,
};
use nimble_status::error::{indicates_success, FAIL_CODE};
use nimble_status::BLEError;
use std::collections::HashSet;

fn code_of<T>(r: Result<T, BLEError>) -> Option<u32> {
    match r {
        Ok(_) => None,
        Err(e) => Some(e.code()),
    }
}

#[test]
fn zero_is_success() {
    assert!(BLEError::convert(0) == Ok(()));
    assert!(BLEError::check_and_return(0, 7u8) == Ok(7u8));
}

#[test]
fn already_in_progress_is_success() {
    assert_eq!(BLE_HS_EALREADY, 2);
    assert!(BLEError::convert(BLE_HS_EALREADY) == Ok(()));
    assert!(BLEError::check_and_return(BLE_HS_EALREADY, "kept") == Ok("kept"));
}

#[test]
fn already_done_is_success() {
    assert_eq!(BLE_HS_EDONE, 14);
    assert!(BLEError::convert(BLE_HS_EDONE) == Ok(()));
    assert!(BLEError::check_and_return(BLE_HS_EDONE, vec![1, 2, 3]) == Ok(vec![1, 2, 3]));
}

#[test]
fn invalid_handle_is_failure_with_table_text() {
    let r = BLEError::convert(BLE_HS_ERR_ATT_BASE + BLE_ATT_ERR_INVALID_HANDLE);
    let e = r.unwrap_err();
    assert_eq!(e.code(), 0x101);
    assert_eq!(e.to_string(), "The attribute handle given was not valid on this server.");
}

#[test]
fn unmapped_code_is_failure_rendered_in_hex() {
    let r = BLEError::check_and_return(0x1234, 99);
    assert!(r.is_err());
    let e = match r {
        Ok(_) => unreachable!(),
        Err(e) => e,
    };
    assert_eq!(e.to_string(), "0x1234");
    assert_eq!(e.code(), 0x1234);
}

#[test]
fn fail_reports_the_catch_all_code() {
    assert_eq!(FAIL_CODE, 0xFFFF);
    let r = BLEError::fail();
    assert_eq!(code_of(r), Some(0xFFFF));
    assert_eq!(BLEError::fail().unwrap_err().to_string(), "0xFFFF");
}

#[test]
fn every_other_code_fails_and_reads_back() {
    let mut samples: Vec<u32> = (1..2000).collect();
    samples.extend([0x7FFF_FFFF, 0x8000_0000, 0x8000_0001, 0xFFFF_FFFE, 0xFFFF_FFFF]);
    for error in samples {
        if error == BLE_HS_EALREADY || error == BLE_HS_EDONE {
            continue;
        }
        assert_eq!(code_of(BLEError::convert(error)), Some(error));
        assert_eq!(code_of(BLEError::check_and_return(error, error)), Some(error));
    }
}

#[test]
fn success_is_exactly_the_three_codes() {
    for error in (0..4096u32).chain([0x8000_0000, 0x8000_0002, 0xFFFF_FFFF]) {
        let expected = error == 0 || error == 2 || error == 14;
        assert_eq!(BLEError::convert(error).is_ok(), expected);
        assert_eq!(indicates_success(error), expected);
    }
}

#[test]
fn failure_does_not_depend_on_the_value() {
    let a = BLEError::check_and_return(BLE_HS_EINVAL, 1u8).unwrap_err();
    let b = BLEError::check_and_return(BLE_HS_EINVAL, String::from("other")).unwrap_err();
    let c = BLEError::convert(BLE_HS_EINVAL).unwrap_err();
    assert!(a == b);
    assert!(b == c);
    assert_eq!(a.code(), 3);
}

#[test]
fn value_comes_back_unchanged() {
    let value = vec![String::from("a"), String::from("b")];
    let r = BLEError::check_and_return(0, value.clone());
    assert!(r == Ok(value));
}

#[test]
fn from_non_zero_wraps_the_code() {
    assert_eq!(BLEError::from_non_zero(5).code(), 5);
    assert_eq!(BLEError::from_non_zero(0x101).code(), 0x101);
    assert_eq!(BLEError::from_non_zero(-1).code(), 0xFFFF_FFFF);
    assert_eq!(BLEError::from_non_zero(i32::MIN).code(), 0x8000_0000);
    assert!(BLEError::from_non_zero(3) == BLEError::convert(3).unwrap_err());
}

#[test]
fn errors_compare_and_hash_by_code() {
    let a = BLEError::from_non_zero(7);
    let b = BLEError::convert(7).unwrap_err();
    let c = BLEError::from_non_zero(8);
    assert!(a == b);
    assert!(a != c);
    let mut seen = HashSet::new();
    assert!(seen.insert(a));
    assert!(!seen.insert(b));
    assert!(seen.insert(c));
    let copy = a;
    assert!(copy == a);
}

#[test]
fn representations_convert_bit_for_bit() {
    for rc in [0i32, 1, 2, 0x1234, i32::MAX, -1, -2, -0x1234, i32::MIN, i32::MIN + 1] {
        assert_eq!(unsigned_of(rc), rc as u32);
        assert_eq!(signed_of(unsigned_of(rc)), rc);
    }
    for code in [0u32, 1, 0x7FFF_FFFF, 0x8000_0000, 0x8000_0001, 0xFFFF_FFFF] {
        assert_eq!(signed_of(code), code as i32);
        assert_eq!(unsigned_of(signed_of(code)), code);
    }
    assert_eq!(unsigned_of(-1), 0xFFFF_FFFF);
    assert_eq!(signed_of(0x8000_0000), i32::MIN);
}
