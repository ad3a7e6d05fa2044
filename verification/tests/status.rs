use ntuplereader::status::{
    BoolResult, CharResult, DoubleResult, IntResult, ShortResult, Status, StatusResult, VoidResult,
};

#[test]
fn ok_status_is_code_zero() {
    assert_eq!(Status::ok(), Status(0));
    assert!(Status::ok().is_ok());
    assert!(Status(0).is_ok());
}

#[test]
fn every_other_code_is_a_failure() {
    assert!(!Status(1).is_ok());
    assert!(!Status(2).is_ok());
    assert!(!Status(u32::MAX).is_ok());
}

#[test]
fn bool_payload_is_returned_unchanged() {
    assert_eq!(BoolResult { status: Status::ok(), res: true }.translate(), Ok(true));
    assert_eq!(BoolResult { status: Status::ok(), res: false }.translate(), Ok(false));
    assert!(BoolResult { status: Status::ok(), res: true }.into_value());
    assert!(!BoolResult { status: Status::ok(), res: false }.into_value());
}

#[test]
fn char_payload_is_returned_unchanged() {
    assert_eq!(CharResult { status: Status::ok(), res: i8::MIN }.translate(), Ok(i8::MIN));
    assert_eq!(CharResult { status: Status::ok(), res: i8::MAX }.into_value(), i8::MAX);
    assert_eq!(CharResult { status: Status::ok(), res: -1 }.into_value(), -1);
}

#[test]
fn short_payload_is_returned_unchanged() {
    assert_eq!(ShortResult { status: Status::ok(), res: i16::MIN }.translate(), Ok(i16::MIN));
    assert_eq!(ShortResult { status: Status::ok(), res: i16::MAX }.into_value(), i16::MAX);
    assert_eq!(ShortResult { status: Status::ok(), res: 300 }.into_value(), 300);
}

#[test]
fn int_payload_is_returned_unchanged() {
    assert_eq!(IntResult { status: Status::ok(), res: i32::MIN }.translate(), Ok(i32::MIN));
    assert_eq!(IntResult { status: Status::ok(), res: i32::MAX }.into_value(), i32::MAX);
    assert_eq!(IntResult { status: Status::ok(), res: 70_000 }.into_value(), 70_000);
}

#[test]
fn double_payload_is_returned_bit_for_bit() {
    let values: [f64; 7] =
        [0.0, -0.0, 1.5, -3500.25, f64::MIN_POSITIVE, f64::MAX, f64::INFINITY];
    for v in values {
        let reply = DoubleResult { status: Status::ok(), res: v.to_bits() };
        let bits = reply.into_value();
        assert_eq!(bits, v.to_bits());
        assert_eq!(f64::from_bits(bits), v);
    }
    let nan = DoubleResult { status: Status::ok(), res: f64::NAN.to_bits() };
    assert_eq!(nan.translate(), Ok(f64::NAN.to_bits()));
}

#[test]
fn float_payload_passes_through_the_generic_result() {
    let reply = StatusResult { status: Status::ok(), res: 0.1f64 + 0.2f64 };
    assert_eq!(reply.into_value(), 0.1f64 + 0.2f64);
}

#[test]
fn void_result_translates_to_unit() {
    assert_eq!(VoidResult { status: Status::ok(), res: () }.translate(), Ok(()));
    VoidResult { status: Status::ok(), res: () }.into_value();
}

#[test]
fn failure_never_yields_the_payload() {
    assert_eq!(BoolResult { status: Status(1), res: true }.translate(), Err(Status(1)));
    assert_eq!(CharResult { status: Status(2), res: 7 }.translate(), Err(Status(2)));
    assert_eq!(ShortResult { status: Status(3), res: 7 }.translate(), Err(Status(3)));
    assert_eq!(IntResult { status: Status(4), res: 7 }.translate(), Err(Status(4)));
    assert_eq!(DoubleResult { status: Status(5), res: 7 }.translate(), Err(Status(5)));
    assert_eq!(VoidResult { status: Status(6), res: () }.translate(), Err(Status(6)));
}

#[test]
fn failure_differs_from_a_successful_empty_payload() {
    let failed = IntResult { status: Status(9), res: 0 }.translate();
    let zero = IntResult { status: Status::ok(), res: 0 }.translate();
    assert_ne!(failed, zero);
    let failed = BoolResult { status: Status(9), res: false }.translate();
    let no = BoolResult { status: Status::ok(), res: false }.translate();
    assert_ne!(failed, no);
    let failed = VoidResult { status: Status(9), res: () }.translate();
    let done = VoidResult { status: Status::ok(), res: () }.translate();
    assert_ne!(failed, done);
}

#[test]
fn failure_keeps_its_status_category() {
    let a = IntResult { status: Status(1), res: 5 }.translate();
    let b = IntResult { status: Status(2), res: 5 }.translate();
    assert_ne!(a, b);
    assert_eq!(a, Err(Status(1)));
    assert_eq!(b, Err(Status(2)));
}
