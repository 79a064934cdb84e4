use elevation::{Elevation, Error, ErrorType, NativeOutcomes, QueryStep, SidAllocation};

fn live_allocation() -> SidAllocation {
    SidAllocation {
        sid_result: 1,
        admins_group: 0x1000,
        mem: 0x2000,
    }
}

fn member_outcomes() -> NativeOutcomes {
    NativeOutcomes {
        open_handle: 0x500,
        open_error: 0,
        check_status: 1,
        check_slot: 1,
    }
}

fn non_member_outcomes() -> NativeOutcomes {
    NativeOutcomes {
        open_handle: 0x500,
        open_error: 0,
        check_status: 1,
        check_slot: 0,
    }
}

#[test]
fn self_elevation_check() {
    let mut el = Elevation::new(live_allocation());

    // If it's elevated, both forms of the query should return true
    let ch_1 = el.is_elevated(None, &member_outcomes());
    let ch_2 = el.is_elevated(Some(4242), &member_outcomes());

    el.cleanup();

    println!("Check0: {:?}", &ch_1);
    println!("Check1: {:?}", &ch_2);

    assert_eq!(ch_1.expect("ch_1 failed!"), ch_2.expect("ch_2 failed!"));
}

#[test]
fn both_query_forms_agree_when_not_elevated() {
    let mut el = Elevation::new(live_allocation());

    let ch_1 = el.is_elevated(None, &non_member_outcomes());
    let ch_2 = el.is_elevated(Some(4242), &non_member_outcomes());

    assert_eq!(ch_1.expect("ch_1 failed!"), false);
    assert_eq!(ch_2.expect("ch_2 failed!"), false);
}

#[test]
fn released_context_refuses_queries() {
    let mut el = Elevation::new(live_allocation());

    assert_eq!(el.is_elevated(None, &member_outcomes()), Ok(true));
    assert_eq!(el.is_elevated(None, &member_outcomes()), Ok(true));

    el.cleanup();
    assert!(el.is_cleaned());

    for _ in 0..3 {
        let err = el
            .is_elevated(None, &member_outcomes())
            .expect_err("query after cleanup must fail");
        assert_eq!(err.get_type(), Some(ErrorType::NotRenewed));
        assert_eq!(err.get_code(), None);
        assert_eq!(err.message, "Checking elevation after cleanup!");
    }
}

#[test]
fn renew_restores_queryability() {
    let mut el = Elevation::new(live_allocation());
    el.cleanup();
    assert!(el.is_cleaned());

    el.renew(live_allocation());
    assert!(!el.is_cleaned());
    assert_eq!(el.is_elevated(None, &member_outcomes()), Ok(true));
    assert_eq!(el.is_elevated(Some(7), &member_outcomes()), Ok(true));
}

#[test]
fn open_failure_carries_native_code() {
    let mut el = Elevation::new(live_allocation());
    let failed_open = NativeOutcomes {
        open_handle: 0,
        open_error: 87,
        check_status: 1,
        check_slot: 1,
    };

    let err = el
        .is_elevated(Some(999_999), &failed_open)
        .expect_err("unopenable target must fail");
    assert_eq!(err.get_type(), Some(ErrorType::OpenProcessFailed));
    assert_eq!(err.get_code(), Some(87));
    assert_eq!(err.message, "OpenProcess has failed!");

    // The failure leaves the context live and the status slot untouched.
    assert!(!el.is_cleaned());
    assert_eq!(el.is_elevated(None, &member_outcomes()), Ok(true));
}

#[test]
fn repeated_queries_agree() {
    let mut elevated = Elevation::new(live_allocation());
    for _ in 0..4 {
        assert_eq!(elevated.is_elevated(Some(4242), &member_outcomes()), Ok(true));
    }

    let mut plain = Elevation::new(live_allocation());
    for _ in 0..4 {
        assert_eq!(plain.is_elevated(Some(4242), &non_member_outcomes()), Ok(false));
    }
}

#[test]
fn end_to_end_lifecycle() {
    let mut el = Elevation::new(live_allocation());

    let first = el.is_elevated(None, &member_outcomes());
    assert_eq!(first, Ok(true));

    let second = el.is_elevated(Some(4242), &member_outcomes());
    assert_eq!(second, first);

    el.cleanup();

    let third = el.is_elevated(None, &member_outcomes());
    let err = third.expect_err("query after release must fail");
    assert_eq!(err.get_type(), Some(ErrorType::NotRenewed));
}

#[test]
fn failed_allocation_degrades_to_not_elevated() {
    let alloc = SidAllocation {
        sid_result: 0,
        admins_group: 0x1000,
        mem: 0x2000,
    };
    let mut el = Elevation::new(alloc);

    // The membership test never runs, so even a "member" answer is ignored.
    assert_eq!(el.is_elevated(None, &member_outcomes()), Ok(false));
    assert_eq!(el.is_elevated(Some(4242), &member_outcomes()), Ok(false));
}

#[test]
fn membership_call_failure_coerces_to_not_member() {
    let mut el = Elevation::new(live_allocation());
    let failing_check = NativeOutcomes {
        open_handle: 0x500,
        open_error: 0,
        check_status: 0,
        check_slot: 1,
    };

    assert_eq!(el.is_elevated(None, &failing_check), Ok(false));
    // The shared slot was overwritten, so a later query skips the test.
    assert_eq!(el.is_elevated(None, &member_outcomes()), Ok(false));
}

#[test]
fn cleanup_hands_resources_out_exactly_once() {
    let mut el = Elevation::new(live_allocation());

    assert_eq!(el.cleanup(), Some((0x1000, 0x2000)));
    assert_eq!(el.cleanup(), None);
    assert!(el.is_cleaned());

    el.renew(SidAllocation {
        sid_result: 1,
        admins_group: 0x3000,
        mem: 0x4000,
    });
    assert_eq!(el.cleanup(), Some((0x3000, 0x4000)));
}

#[test]
fn query_session_steps_match_composed_query() {
    // Drive the session step by step, as a native caller would, against the
    // same simulated answers the composed query gets.
    let os = member_outcomes();
    let mut stepped = Elevation::new(live_allocation());

    let step = stepped.query_start(Some(4242));
    assert!(matches!(step, QueryStep::OpenTarget(4242)));

    let step = stepped.query_opened(os.open_handle, os.open_error);
    assert!(matches!(step, QueryStep::CheckMembership(h) if h == os.open_handle));

    let step = stepped.query_checked(os.open_handle, os.check_status, os.check_slot);
    assert!(matches!(step, QueryStep::CloseTarget(h) if h == os.open_handle));

    let step = stepped.query_closed();
    let stepped_result = match step {
        QueryStep::Done(r) => r,
        _ => panic!("session should be over"),
    };

    let mut composed = Elevation::new(live_allocation());
    assert_eq!(composed.is_elevated(Some(4242), &os), stepped_result);
}

#[test]
fn query_without_target_skips_the_open_step() {
    let el = Elevation::new(live_allocation());
    let step = el.query_start(None);
    assert!(matches!(step, QueryStep::CheckMembership(0)));

    let refused = Elevation::new(SidAllocation {
        sid_result: 0,
        admins_group: 1,
        mem: 2,
    });
    let step = refused.query_start(None);
    assert!(matches!(step, QueryStep::Done(Ok(false))));
}

#[test]
fn error_accessors_treat_zero_and_no_kind_as_absent() {
    let bare = Error {
        code: 0,
        message: "",
        tip: "",
        etype: ErrorType::NoError,
    };
    assert_eq!(bare.get_code(), None);
    assert_eq!(bare.get_type(), None);

    let coded = Error {
        code: 5,
        message: "",
        tip: "",
        etype: ErrorType::Unknown,
    };
    assert_eq!(coded.get_code(), Some(5));
    assert_eq!(coded.get_type(), Some(ErrorType::Unknown));
}
