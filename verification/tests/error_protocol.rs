//! The error-slot protocol and the category mapping, exercised without
//! the engine: outcomes are fed in as plain values.

use datafusion_c::error::{
    df_error_free, df_error_get_code, df_error_get_message, into_df_error,
    report_exchange_failure, report_invalid_text, DFError, DFErrorCode, EngineError,
    EngineErrorKind, ErrorSlot,
};

#[test]
fn record_from_text_keeps_code_and_terminates_message() {
    let error = DFError::new(DFErrorCode::Execution, "boom").expect("clean text");
    assert_eq!(df_error_get_code(&error), DFErrorCode::Execution);
    assert_eq!(df_error_get_message(&error).as_slice(), b"boom\0");
}

#[test]
fn record_from_text_with_embedded_nul_fails() {
    assert!(DFError::new(DFErrorCode::Internal, "bo\0om").is_none());
}

#[test]
fn record_from_empty_text_is_just_a_terminator() {
    let error = DFError::new(DFErrorCode::IO, "").expect("clean text");
    assert_eq!(df_error_get_message(&error).as_slice(), b"\0");
}

#[test]
fn slot_without_detail_stores_nothing() {
    let mut slot = ErrorSlot::new(false);
    slot.set(DFErrorCode::Plan, "ignored");
    assert!(!slot.is_set());
    assert!(slot.take().is_none());
}

#[test]
fn slot_with_detail_stores_the_record() {
    let mut slot = ErrorSlot::new(true);
    slot.set(DFErrorCode::Plan, "no such table");
    assert!(slot.is_set());
    let record = slot.take().expect("stored record");
    assert_eq!(df_error_get_code(&record), DFErrorCode::Plan);
    assert_eq!(df_error_get_message(&record).as_slice(), b"no such table\0");
    assert!(!slot.is_set());
}

#[test]
fn slot_skips_messages_that_cannot_round_trip() {
    let mut slot = ErrorSlot::new(true);
    slot.set(DFErrorCode::Plan, "bad\0message");
    assert!(!slot.is_set());
}

#[test]
fn slot_overwrites_an_earlier_record() {
    let mut slot = ErrorSlot::new(true);
    slot.set(DFErrorCode::Plan, "first");
    slot.set(DFErrorCode::Execution, "second");
    let record = slot.take().expect("stored record");
    assert_eq!(df_error_get_code(&record), DFErrorCode::Execution);
    assert_eq!(df_error_get_message(&record).as_slice(), b"second\0");
}

#[test]
fn success_leaves_the_slot_untouched() {
    let mut slot = ErrorSlot::new(true);
    let value = into_df_error(Ok::<i32, EngineError>(7), &mut slot);
    assert_eq!(value, Some(7));
    assert!(!slot.is_set());
}

#[test]
fn failure_reports_the_mapped_category() {
    let mut slot = ErrorSlot::new(true);
    let failure = EngineError::new(EngineErrorKind::Sql, String::from("bad syntax"));
    let value = into_df_error::<i32>(Err(failure), &mut slot);
    assert_eq!(value, None);
    let record = slot.take().expect("stored record");
    assert_eq!(df_error_get_code(&record), DFErrorCode::SQL);
    assert_eq!(df_error_get_message(&record).as_slice(), b"bad syntax\0");
}

#[test]
fn failure_with_null_slot_still_returns_the_sentinel() {
    let mut slot = ErrorSlot::new(false);
    let failure = EngineError::new(EngineErrorKind::Internal, String::from("oops"));
    let value = into_df_error::<i32>(Err(failure), &mut slot);
    assert_eq!(value, None);
    assert!(slot.take().is_none());
}

#[test]
fn every_engine_kind_maps_to_its_own_category() {
    let pairs = [
        (EngineErrorKind::Arrow, DFErrorCode::Arrow),
        (EngineErrorKind::Parquet, DFErrorCode::Parquet),
        (EngineErrorKind::ObjectStore, DFErrorCode::ObjectStore),
        (EngineErrorKind::Io, DFErrorCode::IO),
        (EngineErrorKind::Sql, DFErrorCode::SQL),
        (EngineErrorKind::NotImplemented, DFErrorCode::NotImplemented),
        (EngineErrorKind::Internal, DFErrorCode::Internal),
        (EngineErrorKind::Plan, DFErrorCode::Plan),
        (EngineErrorKind::Configuration, DFErrorCode::Configuration),
        (EngineErrorKind::Schema, DFErrorCode::Schema),
        (EngineErrorKind::Execution, DFErrorCode::Execution),
        (EngineErrorKind::ExecutionJoin, DFErrorCode::ExecutionJoin),
        (EngineErrorKind::ResourcesExhausted, DFErrorCode::ResourcesExhausted),
        (EngineErrorKind::External, DFErrorCode::External),
        (EngineErrorKind::Context, DFErrorCode::Context),
        (EngineErrorKind::Substrait, DFErrorCode::Substrait),
        (EngineErrorKind::Diagnostic, DFErrorCode::Diagnostic),
        (EngineErrorKind::Collection, DFErrorCode::Collection),
        (EngineErrorKind::Shared, DFErrorCode::Shared),
        (EngineErrorKind::Ffi, DFErrorCode::Ffi),
    ];
    for (kind, code) in pairs {
        let mut slot = ErrorSlot::new(true);
        let failure = EngineError::new(kind, String::from("x"));
        assert_eq!(into_df_error::<i32>(Err(failure), &mut slot), None);
        let record = slot.take().expect("stored record");
        assert_eq!(df_error_get_code(&record), code);
    }
}

#[test]
fn invalid_text_reports_the_external_category() {
    let mut slot = ErrorSlot::new(true);
    report_invalid_text(&mut slot, "stray continuation byte");
    let record = slot.take().expect("stored record");
    assert_eq!(df_error_get_code(&record), DFErrorCode::External);
    assert_eq!(
        df_error_get_message(&record).as_slice(),
        b"stray continuation byte\0"
    );
}

#[test]
fn exchange_failure_reports_the_columnar_category() {
    let mut slot = ErrorSlot::new(true);
    report_exchange_failure(&mut slot, "unsupported layout");
    let record = slot.take().expect("stored record");
    assert_eq!(df_error_get_code(&record), DFErrorCode::Arrow);
    assert_eq!(df_error_get_message(&record).as_slice(), b"unsupported layout\0");
}

#[test]
fn freeing_a_record_consumes_it() {
    let error = DFError::new(DFErrorCode::Arrow, "gone").expect("clean text");
    df_error_free(Some(Box::new(error)));
    df_error_free(None);
}
