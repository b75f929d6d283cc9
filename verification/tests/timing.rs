use vpi::simulator::{power_of_10_to_time_str, Timescale};
use vpi::time::{Time, WireTime, SCALED_REAL_TIME_TAG, SIM_TIME_TAG, SUPPRESS_TIME_TAG};

#[test]
fn sim_time_zero_round_trips() {
    let t = Time::Sim(0);
    let w = t.to_wire();
    assert_eq!(w.tag, SIM_TIME_TAG);
    assert_eq!(w.high, 0);
    assert_eq!(w.low, 0);
    assert_eq!(Time::from_wire(&w), Some(Time::Sim(0)));
}

#[test]
fn sim_time_low_word_boundary_round_trips() {
    let t = Time::Sim(u32::MAX as u64);
    let w = t.to_wire();
    assert_eq!(w.high, 0);
    assert_eq!(w.low, u32::MAX);
    assert_eq!(Time::from_wire(&w), Some(Time::Sim(u32::MAX as u64)));
}

#[test]
fn sim_time_max_round_trips() {
    let t = Time::Sim(u64::MAX);
    let w = t.to_wire();
    assert_eq!(w.high, u32::MAX);
    assert_eq!(w.low, u32::MAX);
    assert_eq!(Time::from_wire(&w), Some(Time::Sim(u64::MAX)));
}

#[test]
fn sim_time_splits_into_halves() {
    let t = Time::Sim(0x1234_5678_9ABC_DEF0);
    let w = t.to_wire();
    assert_eq!(w.tag, SIM_TIME_TAG);
    assert_eq!(w.high, 0x1234_5678);
    assert_eq!(w.low, 0x9ABC_DEF0);
    assert_eq!(w.real_bits, 0);
    assert_eq!(Time::from_wire(&w), Some(t));
}

#[test]
fn scaled_real_time_round_trips_bit_exactly() {
    let bits = 2.25f64.to_bits();
    let t = Time::ScaledReal(bits);
    let w = t.to_wire();
    assert_eq!(w.tag, SCALED_REAL_TIME_TAG);
    assert_eq!(w.high, 0);
    assert_eq!(w.low, 0);
    assert_eq!(w.real_bits, bits);
    assert_eq!(Time::from_wire(&w), Some(Time::ScaledReal(bits)));
    match Time::from_wire(&w) {
        Some(Time::ScaledReal(b)) => assert_eq!(f64::from_bits(b), 2.25),
        _ => unreachable!(),
    }
}

#[test]
fn suppressed_time_encodes_all_zero() {
    let w = Time::Suppress.to_wire();
    assert_eq!(w.tag, SUPPRESS_TIME_TAG);
    assert_eq!(w.high, 0);
    assert_eq!(w.low, 0);
    assert_eq!(w.real_bits, 0);
    assert_eq!(Time::from_wire(&w), Some(Time::Suppress));
}

#[test]
fn unrecognized_time_tag_has_no_interpretation() {
    for tag in [0, 4, 5, -1, 77] {
        let w = WireTime { tag, high: 1, low: 2, real_bits: 3 };
        assert_eq!(Time::from_wire(&w), None, "tag {tag} must be refused");
    }
}

#[test]
fn time_type_names_the_wire_tag() {
    assert_eq!(Time::Sim(5).time_type(), SIM_TIME_TAG);
    assert_eq!(Time::ScaledReal(0).time_type(), SCALED_REAL_TIME_TAG);
    assert_eq!(Time::Suppress.time_type(), SUPPRESS_TIME_TAG);
}

#[test]
fn named_time_units_render_conventionally() {
    assert_eq!(power_of_10_to_time_str(2), "100s");
    assert_eq!(power_of_10_to_time_str(1), "10s");
    assert_eq!(power_of_10_to_time_str(0), "1s");
    assert_eq!(power_of_10_to_time_str(-1), "100ms");
    assert_eq!(power_of_10_to_time_str(-2), "10ms");
    assert_eq!(power_of_10_to_time_str(-3), "1ms");
    assert_eq!(power_of_10_to_time_str(-6), "1us");
    assert_eq!(power_of_10_to_time_str(-9), "1ns");
    assert_eq!(power_of_10_to_time_str(-12), "1ps");
    assert_eq!(power_of_10_to_time_str(-15), "1fs");
}

#[test]
fn unnamed_time_units_render_as_powers_of_ten() {
    assert_eq!(power_of_10_to_time_str(-4), "10^-4s");
    assert_eq!(power_of_10_to_time_str(-13), "10^-13s");
    assert_eq!(power_of_10_to_time_str(3), "10^3s");
    assert_eq!(power_of_10_to_time_str(12), "10^12s");
    assert_eq!(power_of_10_to_time_str(-2147483648), "10^-2147483648s");
    assert_eq!(power_of_10_to_time_str(2147483647), "10^2147483647s");
}

#[test]
fn timescale_renders_unit_and_precision() {
    let ts = Timescale { unit: -9, precision: -12 };
    assert_eq!(ts.unit_str(), "1ns");
    assert_eq!(ts.precision_str(), "1ps");
    let ts = Timescale { unit: -5, precision: -15 };
    assert_eq!(ts.unit_str(), "10^-5s");
    assert_eq!(ts.precision_str(), "1fs");
}

#[test]
fn timescale_display_joins_unit_and_precision() {
    let ts = Timescale { unit: -9, precision: -12 };
    assert_eq!(ts.display_string(), "1ns / 1ps");
    let ts = Timescale { unit: 0, precision: -4 };
    assert_eq!(ts.display_string(), "1s / 10^-4s");
}
