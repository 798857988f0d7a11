use echo_bench::limits::plan_descriptor_limit;
use echo_bench::limits::LimitError;
use echo_bench::limits::RESERVED_DESCRIPTORS;

#[test]
fn reserved_descriptors_are_three() {
    assert_eq!(RESERVED_DESCRIPTORS, 3);
}

#[test]
fn plan_sets_the_limit_to_what_the_run_needs() {
    assert_eq!(plan_descriptor_limit(1024, 50), Ok(53));
    assert_eq!(plan_descriptor_limit(1_048_576, 1000), Ok(1003));
    assert_eq!(plan_descriptor_limit(u64::MAX, u32::MAX), Ok(4_294_967_298));
    assert_eq!(plan_descriptor_limit(3, 0), Ok(3));
}

#[test]
fn plan_accepts_a_hard_limit_that_is_just_enough() {
    assert_eq!(plan_descriptor_limit(53, 50), Ok(53));
}

#[test]
fn plan_fails_below_the_need_and_names_the_hard_limit() {
    assert_eq!(
        plan_descriptor_limit(52, 50),
        Err(LimitError::HardLimitTooLow { hard_limit: 52 })
    );
    assert_eq!(plan_descriptor_limit(0, 1), Err(LimitError::HardLimitTooLow { hard_limit: 0 }));
    assert_eq!(plan_descriptor_limit(2, 0), Err(LimitError::HardLimitTooLow { hard_limit: 2 }));
}

#[test]
fn limit_error_message_names_the_hard_limit() {
    let error = LimitError::HardLimitTooLow { hard_limit: 256 };
    assert_eq!(error.message(), "the hard limit of this process is only 256");
    let error = LimitError::HardLimitTooLow { hard_limit: 0 };
    assert_eq!(error.message(), "the hard limit of this process is only 0");
}
