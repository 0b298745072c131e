use aws_fpga::errors::{Error, SdkError};
use aws_fpga::fpga_pci::{
    AttachFlags, AttachRequest, BaseAddressRegister, FpgaContext, PhysicalFunction, Slot,
};

#[test]
fn it_works() {
    assert_eq!(2 + 2, 4);
}

const CATALOGUE: [(u32, SdkError); 16] = [
    (3, SdkError::AfiCommandBusy),
    (5, SdkError::AfiIdInvalid),
    (11, SdkError::AfiCommandApiVersionInvalid),
    (12, SdkError::ClIdMismatch),
    (13, SdkError::ClDdrCalibrationFailed),
    (14, SdkError::UnspecifiedError),
    (16, SdkError::ShellMismatch),
    (17, SdkError::PowerViolation),
    (18, SdkError::DramDataRetentionNotPossible),
    (19, SdkError::HardwareBusy),
    (20, SdkError::PciMissing),
    (21, SdkError::AfiCommandMalformed),
    (22, SdkError::DramDataRetentionFailed),
    (23, SdkError::DramDataRetentionSetupFailed),
    (24, SdkError::SoftwareProblem),
    (25, SdkError::Unresponsive),
];

#[test]
fn every_documented_code_maps_to_its_error() {
    for (code, err) in CATALOGUE.iter() {
        assert_eq!(SdkError::try_from_code(*code), Some(*err));
        assert_eq!(SdkError::from_code(*code), *err);
        assert_eq!(err.code(), *code);
        assert!(!err.message().is_empty());
    }
}

#[test]
fn documented_codes_map_to_distinct_errors() {
    for (i, (_, a)) in CATALOGUE.iter().enumerate() {
        for (j, (_, b)) in CATALOGUE.iter().enumerate() {
            assert_eq!(i == j, a == b);
        }
    }
}

#[test]
fn undocumented_codes_have_no_error() {
    for code in [0u32, 1, 2, 4, 6, 10, 15, 26, 99, u32::MAX] {
        assert_eq!(SdkError::try_from_code(code), None);
    }
}

#[test]
fn error_messages() {
    assert_eq!(SdkError::UnspecifiedError.message(), "generic/unspecified error");
    assert_eq!(SdkError::Unresponsive.message(), "Cannot communicate with the FPGA");
    assert_eq!(SdkError::PowerViolation.message(), "Not documented in AWS FPGA SDK");
}

#[test]
fn error_from_sdk_error() {
    assert_eq!(Error::from(SdkError::PciMissing), Error::AwsSdkError(SdkError::PciMissing));
    assert_ne!(Error::from(SdkError::PciMissing), Error::InvalidBar);
}

#[test]
fn attach_success_wraps_handle() {
    let request = AttachRequest::new(
        Slot::from(0),
        PhysicalFunction::App,
        BaseAddressRegister::AppBar0,
        AttachFlags::burst_capable(),
    );
    assert_eq!(
        request,
        AttachRequest { slot: 0, physical_function: 0, bar: 0, flags: 1 }
    );
    let ctx = FpgaContext::from_attach_status(0, 42).unwrap();
    assert_eq!(ctx.handle(), 42);
}

#[test]
fn attach_failure_14_is_unspecified_error() {
    match FpgaContext::from_attach_status(14, 42) {
        Err(e) => assert_eq!(e, Error::AwsSdkError(SdkError::UnspecifiedError)),
        Ok(_) => panic!("status 14 must fail"),
    }
}

#[test]
fn attach_failure_maps_every_documented_code() {
    for (code, err) in CATALOGUE.iter() {
        match FpgaContext::from_attach_status(*code as i32, 7) {
            Err(e) => assert_eq!(e, Error::AwsSdkError(*err)),
            Ok(_) => panic!("a nonzero status must fail"),
        }
    }
}

#[test]
fn attach_status_99_is_a_defect() {
    assert_eq!(SdkError::try_from_code(99), None);
}

#[test]
fn physical_function_round_trip() {
    let app: u32 = PhysicalFunction::App.into();
    let mgmt: u32 = PhysicalFunction::Management.into();
    assert_eq!(app, 0);
    assert_eq!(mgmt, 1);
    assert_eq!(PhysicalFunction::from_code(app), PhysicalFunction::App);
    assert_eq!(PhysicalFunction::from_code(mgmt), PhysicalFunction::Management);
}

#[test]
fn bar_encodings() {
    let codes: Vec<u32> = [
        BaseAddressRegister::AppBar0,
        BaseAddressRegister::AppBar1,
        BaseAddressRegister::AppBar4,
        BaseAddressRegister::ManagementBar0,
        BaseAddressRegister::ManagementBar2,
        BaseAddressRegister::ManagementBar4,
    ]
    .iter()
    .map(|b| u32::from(*b))
    .collect();
    assert_eq!(codes, vec![0, 1, 4, 0, 2, 4]);
}

#[test]
fn management_request_encoding() {
    let request = AttachRequest::new(
        Slot::from(3),
        PhysicalFunction::Management,
        BaseAddressRegister::ManagementBar4,
        AttachFlags::empty(),
    );
    assert_eq!(
        request,
        AttachRequest { slot: 3, physical_function: 1, bar: 4, flags: 0 }
    );
}

#[test]
fn burst_capable_alone_is_bit_zero() {
    assert_eq!(AttachFlags::empty().union(AttachFlags::burst_capable()).bits(), 1);
    assert_eq!(AttachFlags::burst_capable().bits(), 1);
    assert_eq!(AttachFlags::empty().bits(), 0);
}

#[test]
fn burst_capable_survives_reserved_bits() {
    let all = AttachFlags::burst_capable().union(AttachFlags::reserved());
    assert_eq!(all.bits(), 0xffff_ffff);
    assert!(all.contains(AttachFlags::burst_capable()));
    assert!(all.contains(AttachFlags::reserved()));
    assert!(!AttachFlags::reserved().contains(AttachFlags::burst_capable()));
    assert_eq!(AttachFlags::reserved().bits(), 0xffff_fffe);
}
