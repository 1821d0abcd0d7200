use roast::error::{
    create_propagated_error, free_error, resolve_caught, CallOutcome, ErrorPayload,
    ForeignRoastError, ForeignRoastErrorType, ForeignRoastResult, Nothing, PanicPayload,
    RoastError,
};

#[test]
fn propagated_error_round_trip() {
    let bytes: Vec<u8> = vec![1, 2, 3, 250, 0, 17];
    let error = create_propagated_error(&bytes);
    assert!(matches!(error.ty, ForeignRoastErrorType::Propagated));
    let payload = free_error(error);
    assert_eq!(payload, ErrorPayload::Opaque(bytes));
}

#[test]
fn propagated_error_round_trip_empty() {
    let bytes: Vec<u8> = Vec::new();
    let error = create_propagated_error(&bytes);
    let payload = free_error(error);
    assert_eq!(payload, ErrorPayload::Opaque(Vec::new()));
}

#[test]
fn from_result_keeps_success() {
    let r = ForeignRoastResult::from_result(Ok(7u64));
    assert!(matches!(r, ForeignRoastResult::Success(7)));
}

#[test]
fn from_result_tags_each_error_kind() {
    let cases: Vec<(RoastError, ForeignRoastErrorType)> = vec![
        (RoastError::Generic("g".to_string()), ForeignRoastErrorType::Generic),
        (RoastError::NullPointer("n".to_string()), ForeignRoastErrorType::NullPointer),
        (RoastError::IllegalArgument("a".to_string()), ForeignRoastErrorType::IllegalArgument),
        (RoastError::IllegalState("s".to_string()), ForeignRoastErrorType::IllegalState),
    ];
    for (error, expected_ty) in cases {
        let message = error.message().clone();
        let r: ForeignRoastResult<u64> = ForeignRoastResult::from_result(Err(error));
        match r {
            ForeignRoastResult::Failure(e) => {
                assert_eq!(e.ty, expected_ty);
                assert_eq!(e.payload, ErrorPayload::Message(message));
            }
            ForeignRoastResult::Success(_) => panic!("expected a failure"),
        }
    }
}

#[test]
fn resolve_caught_completed_passes_through() {
    let r: ForeignRoastResult<u32> = resolve_caught(CallOutcome::Completed(Ok(5)));
    assert!(matches!(r, ForeignRoastResult::Success(5)));

    let r: ForeignRoastResult<u32> =
        resolve_caught(CallOutcome::Completed(Err(RoastError::IllegalState("bad".to_string()))));
    match r {
        ForeignRoastResult::Failure(e) => {
            assert!(matches!(e.ty, ForeignRoastErrorType::IllegalState));
            assert_eq!(e.payload, ErrorPayload::Message("bad".to_string()));
        }
        ForeignRoastResult::Success(_) => panic!("expected a failure"),
    }
}

#[test]
fn resolve_caught_foreign_panic_hands_error_through() {
    let foreign = ForeignRoastError {
        ty: ForeignRoastErrorType::Propagated,
        payload: ErrorPayload::Opaque(vec![9, 9]),
    };
    let r: ForeignRoastResult<u32> =
        resolve_caught(CallOutcome::Panicked(PanicPayload::Foreign(foreign)));
    match r {
        ForeignRoastResult::Failure(e) => {
            assert!(matches!(e.ty, ForeignRoastErrorType::Propagated));
            assert_eq!(e.payload, ErrorPayload::Opaque(vec![9, 9]));
        }
        ForeignRoastResult::Success(_) => panic!("expected a failure"),
    }
}

#[test]
fn resolve_caught_other_panic_becomes_generic() {
    let r: ForeignRoastResult<u32> = resolve_caught(CallOutcome::Panicked(PanicPayload::Other));
    match r {
        ForeignRoastResult::Failure(e) => {
            assert!(matches!(e.ty, ForeignRoastErrorType::Generic));
            assert_eq!(e.payload, ErrorPayload::Message("panic!".to_string()));
        }
        ForeignRoastResult::Success(_) => panic!("expected a failure"),
    }
}

#[test]
fn nothing_is_empty() {
    assert_eq!(Nothing::new(), Nothing::default());
    assert_eq!(Nothing::new().sadness, 0);
}
