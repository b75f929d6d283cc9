use vpi::callback::{
    cb_descriptor, cb_descriptor_with_time, trampoline_event, CallbackRegistry, CapsuleError,
    CbReason,
};
use vpi::control::Control;
use vpi::error::{build_error, owned_or_unknown, ErrorState, Severity};
use vpi::handle::{Handle, HandleIterator, IterStep};
use vpi::property::{bool_from_native, Direction, Property};
use vpi::text::sanitize_for_native;
use vpi::time::{Time, SIM_TIME_TAG};
use vpi::value::ValueType;

#[test]
fn null_handle_issues_no_query_at_all() {
    // Count the native calls the accessors would issue: each query that
    // answers something is one call, so a null handle must answer nothing
    // anywhere.
    let h = Handle::null();
    assert!(h.is_null());
    let mut calls = 0;
    for p in [
        Property::Name,
        Property::FullName,
        Property::DefName,
        Property::File,
        Property::DefFile,
        Property::Type,
        Property::TopModule,
        Property::CellInstance,
        Property::LineNo,
    ] {
        if h.str_property_query(&p).is_some() {
            calls += 1;
        }
        if h.bool_property_query(&p).is_some() {
            calls += 1;
        }
    }
    if h.direction_query().is_some() {
        calls += 1;
    }
    for f in [ValueType::BinStr, ValueType::Int, ValueType::Vector, ValueType::Real] {
        if h.value_query(&f).is_some() {
            calls += 1;
        }
    }
    if h.time_query() {
        calls += 1;
    }
    assert_eq!(calls, 0);
}

#[test]
fn bound_handle_queries_carry_the_codes() {
    let h = Handle::from_raw(0x1000);
    assert!(!h.is_null());
    assert_eq!(h.str_property_query(&Property::Name), Some(2));
    assert_eq!(h.str_property_query(&Property::FullName), Some(3));
    assert_eq!(h.bool_property_query(&Property::TopModule), Some(7));
    assert_eq!(h.bool_property_query(&Property::CellInstance), Some(8));
    assert_eq!(h.direction_query(), Some(20));
    assert_eq!(h.value_query(&ValueType::Vector), Some(9));
    assert!(h.time_query());
}

#[test]
fn unimplemented_property_forms_answer_nothing() {
    let h = Handle::from_raw(0x1000);
    // No string form for a boolean property and vice versa; no form at all
    // for a property outside the decode tables.
    assert_eq!(h.str_property_query(&Property::TopModule), None);
    assert_eq!(h.bool_property_query(&Property::Name), None);
    assert_eq!(h.str_property_query(&Property::LineNo), None);
    assert_eq!(h.bool_property_query(&Property::LineNo), None);
}

#[test]
fn handle_lifecycle_null_clear_raw() {
    let mut h = Handle::from_raw(0xBEEF);
    assert!(!h.is_null());
    assert_eq!(h.as_raw(), 0xBEEF);
    h.clear();
    assert!(h.is_null());
    assert_eq!(h.as_raw(), 0);
    assert!(Handle::null().is_null());
    assert!(Handle::default().is_null());
}

#[test]
fn property_codes_match_the_wire_protocol() {
    assert_eq!(Property::Undefined.code(), -1);
    assert_eq!(Property::Type.code(), 1);
    assert_eq!(Property::Name.code(), 2);
    assert_eq!(Property::Size.code(), 4);
    assert_eq!(Property::TimeUnit.code(), 11);
    assert_eq!(Property::TimePrecision.code(), 12);
    assert_eq!(Property::Direction.code(), 20);
    assert_eq!(Property::LocalParam.code(), 70);
}

#[test]
fn direction_codes_decode() {
    assert_eq!(Direction::from_code(1), Some(Direction::Input));
    assert_eq!(Direction::from_code(2), Some(Direction::Output));
    assert_eq!(Direction::from_code(3), Some(Direction::Inout));
    assert_eq!(Direction::from_code(4), Some(Direction::MixedIO));
    assert_eq!(Direction::from_code(5), Some(Direction::NoDirection));
    assert_eq!(Direction::from_code(0), None);
    assert_eq!(Direction::from_code(6), None);
    assert_eq!(Direction::from_code(-3), None);
}

#[test]
fn native_booleans_are_nonzero() {
    assert!(bool_from_native(1));
    assert!(bool_from_native(-7));
    assert!(!bool_from_native(0));
}

#[test]
fn empty_iteration_scans_exactly_once() {
    // An iterator over an empty collection: the begin-iteration call
    // happened once (it produced the iterator handle), and the one scan
    // that signals exhaustion is the only scan ever asked for.
    let mut it = HandleIterator::new(Handle::from_raw(0x42));
    let mut scans = 0;
    let mut yielded = 0;
    loop {
        match it.step() {
            IterStep::Done => break,
            IterStep::Scan(_) => {
                scans += 1;
                // The native side answers null: the collection is empty.
                if it.absorb_scan(Handle::null()).is_some() {
                    yielded += 1;
                }
            }
        }
    }
    assert_eq!(scans, 1);
    assert_eq!(yielded, 0);
    assert!(matches!(it.step(), IterStep::Done));
}

#[test]
fn iteration_yields_elements_until_null_scan() {
    let mut it = HandleIterator::new(Handle::from_raw(0x42));
    // First scan answers an element.
    let e = match it.step() {
        IterStep::Scan(_) => it.absorb_scan(Handle::from_raw(0x77)),
        IterStep::Done => unreachable!(),
    };
    assert_eq!(e.map(|h| h.as_raw()), Some(0x77));
    // The iterator is still live and asks for another scan on the same
    // iterator handle.
    match it.step() {
        IterStep::Scan(h) => assert_eq!(h.as_raw(), 0x42),
        IterStep::Done => unreachable!(),
    }
    // Exhaustion.
    assert!(it.absorb_scan(Handle::null()).is_none());
    assert!(matches!(it.step(), IterStep::Done));
}

#[test]
fn iterator_over_null_begin_is_immediately_done() {
    let it = HandleIterator::new(Handle::null());
    assert!(matches!(it.step(), IterStep::Done));
}

#[test]
fn register_then_remove_is_balanced() {
    let mut reg = CallbackRegistry::new();
    assert_eq!(reg.allocations(), 0);
    assert_eq!(reg.deallocations(), 0);
    let token = reg.register(Handle::from_raw(0xCB1));
    assert_eq!(reg.allocations(), 1);
    assert_eq!(reg.deallocations(), 0);
    let freed = reg.remove(token);
    assert!(matches!(freed, Ok(h) if h.as_raw() == 0xCB1));
    assert_eq!(reg.allocations(), 1);
    assert_eq!(reg.deallocations(), 1);
}

#[test]
fn removing_a_reclaimed_capsule_is_reported_not_repeated() {
    let mut reg = CallbackRegistry::new();
    let token = reg.register(Handle::from_raw(0xCB2));
    assert!(reg.remove(token).is_ok());
    // The token was consumed, so the only way to name that capsule again is
    // a stale token from elsewhere with the same index.
    let mut other = CallbackRegistry::new();
    let stale = other.register(Handle::from_raw(0xCB3));
    assert!(matches!(reg.remove(stale), Err(CapsuleError::Misuse)));
    assert_eq!(reg.allocations(), 1);
    assert_eq!(reg.deallocations(), 1);
}

#[test]
fn removing_from_an_empty_registry_is_misuse() {
    let mut other = CallbackRegistry::new();
    let stale = other.register(Handle::from_raw(0xCB4));
    let mut reg = CallbackRegistry::new();
    assert!(matches!(reg.remove(stale), Err(CapsuleError::Misuse)));
    assert_eq!(reg.allocations(), 0);
    assert_eq!(reg.deallocations(), 0);
}

#[test]
fn several_registrations_reclaim_independently() {
    let mut reg = CallbackRegistry::new();
    let t1 = reg.register(Handle::from_raw(1));
    let t2 = reg.register(Handle::from_raw(2));
    let t3 = reg.register(Handle::from_raw(3));
    assert_eq!(reg.allocations(), 3);
    assert!(reg.remove(t2).is_ok());
    assert_eq!(reg.deallocations(), 1);
    assert!(reg.remove(t1).is_ok());
    assert!(reg.remove(t3).is_ok());
    assert_eq!(reg.allocations(), 3);
    assert_eq!(reg.deallocations(), 3);
}

#[test]
fn descriptor_carries_reason_and_no_time() {
    let d = cb_descriptor(&CbReason::StartOfSimulation);
    assert_eq!(d.reason, 11);
    assert!(d.obj.is_null());
    assert!(d.time.is_none());
}

#[test]
fn descriptor_with_time_encodes_the_time() {
    let d = cb_descriptor_with_time(&CbReason::AfterDelay, &Time::Sim(0x1_0000_0002));
    assert_eq!(d.reason, 9);
    assert!(d.obj.is_null());
    let w = d.time.expect("a scheduled time");
    assert_eq!(w.tag, SIM_TIME_TAG);
    assert_eq!(w.high, 1);
    assert_eq!(w.low, 2);
}

#[test]
fn callback_reason_codes_match_the_wire_protocol() {
    assert_eq!(CbReason::ValueChange.code(), 1);
    assert_eq!(CbReason::ReadWriteSynch.code(), 6);
    assert_eq!(CbReason::ReadOnlySynch.code(), 7);
    assert_eq!(CbReason::AfterDelay.code(), 9);
    assert_eq!(CbReason::StartOfSimulation.code(), 11);
    assert_eq!(CbReason::EndOfSimulation.code(), 12);
    assert_eq!(CbReason::PLIError.code(), 28);
    assert_eq!(CbReason::AtEndOfSimTime.code(), 31);
}

#[test]
fn trampoline_ignores_missing_payload_or_capsule() {
    assert!(trampoline_event(false, true, 0x99).is_none());
    assert!(trampoline_event(true, false, 0x99).is_none());
    assert!(trampoline_event(false, false, 0x99).is_none());
}

#[test]
fn trampoline_builds_the_event_context_by_reference() {
    let ctx = trampoline_event(true, true, 0x99).expect("an event context");
    assert_eq!(ctx.obj.as_raw(), 0x99);
    let ctx = trampoline_event(true, true, 0).expect("an event context");
    assert!(ctx.obj.is_null());
}

#[test]
fn control_codes_match_the_wire_protocol() {
    assert_eq!(Control::Stop.code(), 66);
    assert_eq!(Control::Finish.code(), 67);
    assert_eq!(Control::Reset.code(), 68);
    assert_eq!(Control::SetInteractiveScope.code(), 69);
}

#[test]
fn no_error_reported_means_no_snapshot() {
    let r = build_error(0, None, None, None, 0, 0, 0, None);
    assert!(r.is_none());
}

#[test]
fn error_snapshot_copies_fields_and_substitutes_placeholder() {
    let r = build_error(
        1,
        Some(String::from("E42")),
        None,
        Some(String::from("dut.v")),
        17,
        3,
        2,
        Some(String::from("simko")),
    )
    .expect("a snapshot");
    assert_eq!(r.code, "E42");
    assert_eq!(r.message, "Unknown");
    assert_eq!(r.file.as_deref(), Some("dut.v"));
    assert_eq!(r.line, 17);
    assert_eq!(r.severity, Some(Severity::Error));
    assert_eq!(r.state, Some(ErrorState::PLI));
    assert_eq!(r.product, "simko");
}

#[test]
fn unrecognized_severity_and_state_are_empty_not_fatal() {
    let r = build_error(5, None, Some(String::from("boom")), None, -1, 9, 0, None)
        .expect("a snapshot");
    assert_eq!(r.code, "Unknown");
    assert_eq!(r.message, "boom");
    assert_eq!(r.file, None);
    assert_eq!(r.severity, None);
    assert_eq!(r.state, None);
}

#[test]
fn severity_and_state_codes_decode() {
    assert_eq!(Severity::from_code(1), Some(Severity::Notice));
    assert_eq!(Severity::from_code(2), Some(Severity::Warning));
    assert_eq!(Severity::from_code(3), Some(Severity::Error));
    assert_eq!(Severity::from_code(4), Some(Severity::System));
    assert_eq!(Severity::from_code(5), Some(Severity::Internal));
    assert_eq!(Severity::from_code(0), None);
    assert_eq!(ErrorState::from_code(1), Some(ErrorState::Compile));
    assert_eq!(ErrorState::from_code(2), Some(ErrorState::PLI));
    assert_eq!(ErrorState::from_code(3), Some(ErrorState::Run));
    assert_eq!(ErrorState::from_code(4), None);
}

#[test]
fn placeholder_substitution() {
    assert_eq!(owned_or_unknown(Some(String::from("x"))), "x");
    assert_eq!(owned_or_unknown(None), "Unknown");
}

#[test]
fn sanitize_replaces_non_ascii_with_question_mark() {
    assert_eq!(sanitize_for_native("caf\u{00e9}"), b"caf?".to_vec());
}

#[test]
fn sanitize_keeps_ascii_unchanged() {
    assert_eq!(sanitize_for_native("hello, $display 42\n"), b"hello, $display 42\n".to_vec());
    assert_eq!(sanitize_for_native(""), Vec::<u8>::new());
    assert_eq!(sanitize_for_native("\u{7f}"), vec![0x7F]);
}

#[test]
fn sanitize_replaces_every_wide_character() {
    // Each character becomes exactly one byte, whatever its encoded width.
    assert_eq!(sanitize_for_native("\u{80}\u{4e16}\u{1F600}a"), b"???a".to_vec());
}
