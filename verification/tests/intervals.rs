use music_theory::interval::resolve_generic_interval;
use music_theory::interval::GenericInterval;
use music_theory::interval::IntervalSpan;
use music_theory::interval::InvalidSpanError;
use music_theory::note::all_naturals;
use music_theory::note::Natural;

#[test]
fn first_and_octave_are_identity_for_every_natural() {
    for root in all_naturals() {
        let first = resolve_generic_interval(root, IntervalSpan::First);
        assert_eq!(first, GenericInterval { root, second: root });
        let octave = resolve_generic_interval(root, IntervalSpan::Octave);
        assert_eq!(octave, GenericInterval { root, second: root });
        assert_eq!(first, octave);
    }
}

#[test]
fn cyclic_wrap_past_g_lands_on_a() {
    let r = resolve_generic_interval(Natural::G, IntervalSpan::Second);
    assert_eq!(
        r,
        GenericInterval { root: Natural::G, second: Natural::A }
    );
}

#[test]
fn repeated_calls_with_identical_inputs_are_equal() {
    let first = resolve_generic_interval(Natural::E, IntervalSpan::Fifth);
    for _ in 0..10 {
        let again = resolve_generic_interval(Natural::E, IntervalSpan::Fifth);
        assert_eq!(again, first);
    }
}

#[test]
fn step_mapping_from_c_walks_the_full_cycle() {
    let spans = [
        IntervalSpan::First,
        IntervalSpan::Second,
        IntervalSpan::Third,
        IntervalSpan::Fourth,
        IntervalSpan::Fifth,
        IntervalSpan::Sixth,
        IntervalSpan::Seventh,
        IntervalSpan::Octave,
    ];
    let seconds = [
        Natural::C,
        Natural::D,
        Natural::E,
        Natural::F,
        Natural::G,
        Natural::A,
        Natural::B,
        Natural::C,
    ];
    for (span, expected) in spans.iter().zip(seconds.iter()) {
        let r = resolve_generic_interval(Natural::C, *span);
        assert_eq!(r.root, Natural::C);
        assert_eq!(r.second, *expected);
    }
}

#[test]
fn span_step_counts_run_zero_through_seven() {
    assert_eq!(IntervalSpan::First.step_count(), 0);
    assert_eq!(IntervalSpan::Second.step_count(), 1);
    assert_eq!(IntervalSpan::Third.step_count(), 2);
    assert_eq!(IntervalSpan::Fourth.step_count(), 3);
    assert_eq!(IntervalSpan::Fifth.step_count(), 4);
    assert_eq!(IntervalSpan::Sixth.step_count(), 5);
    assert_eq!(IntervalSpan::Seventh.step_count(), 6);
    assert_eq!(IntervalSpan::Octave.step_count(), 7);
    assert_eq!(GenericInterval::FIRST, 0);
    assert_eq!(GenericInterval::SECOND, 1);
    assert_eq!(GenericInterval::THIRD, 2);
    assert_eq!(GenericInterval::FOURTH, 3);
    assert_eq!(GenericInterval::FIFTH, 4);
    assert_eq!(GenericInterval::SIXTH, 5);
    assert_eq!(GenericInterval::SEVENTH, 6);
    assert_eq!(GenericInterval::OCTAVE, 7);
}

#[test]
fn step_count_above_octave_is_rejected() {
    let r = GenericInterval::new(Natural::C, 8);
    assert_eq!(
        r,
        Err(InvalidSpanError { step_count: 8, max_step_count: 7 })
    );
    let r = GenericInterval::new(Natural::A, 100);
    assert_eq!(
        r,
        Err(InvalidSpanError { step_count: 100, max_step_count: 7 })
    );
    let r = GenericInterval::new(Natural::G, i8::MAX);
    assert_eq!(
        r,
        Err(InvalidSpanError { step_count: i8::MAX, max_step_count: 7 })
    );
}

#[test]
fn step_count_at_octave_maximum_is_accepted() {
    let r = GenericInterval::new(Natural::G, GenericInterval::OCTAVE);
    assert_eq!(
        r,
        Ok(GenericInterval { root: Natural::G, second: Natural::G })
    );
}

#[test]
fn scenario_d_first() {
    let r = resolve_generic_interval(Natural::D, IntervalSpan::First);
    assert_eq!(
        r,
        GenericInterval { root: Natural::D, second: Natural::D }
    );
}

#[test]
fn scenario_e_third() {
    let r = resolve_generic_interval(Natural::E, IntervalSpan::Third);
    assert_eq!(
        r,
        GenericInterval { root: Natural::E, second: Natural::G }
    );
}

#[test]
fn scenario_f_fourth_wraps_to_b() {
    let r = resolve_generic_interval(Natural::F, IntervalSpan::Fourth);
    assert_eq!(
        r,
        GenericInterval { root: Natural::F, second: Natural::B }
    );
}

#[test]
fn scenario_c_seventh() {
    let r = resolve_generic_interval(Natural::C, IntervalSpan::Seventh);
    assert_eq!(
        r,
        GenericInterval { root: Natural::C, second: Natural::B }
    );
}

#[test]
fn scenario_g_octave() {
    let r = resolve_generic_interval(Natural::G, IntervalSpan::Octave);
    assert_eq!(
        r,
        GenericInterval { root: Natural::G, second: Natural::G }
    );
}

#[test]
fn new_agrees_with_the_span_resolver() {
    let spans = [
        IntervalSpan::First,
        IntervalSpan::Second,
        IntervalSpan::Third,
        IntervalSpan::Fourth,
        IntervalSpan::Fifth,
        IntervalSpan::Sixth,
        IntervalSpan::Seventh,
        IntervalSpan::Octave,
    ];
    for root in all_naturals() {
        for span in spans.iter() {
            let by_span = resolve_generic_interval(root, *span);
            let by_count = GenericInterval::new(root, span.step_count());
            assert_eq!(by_count, Ok(by_span));
        }
    }
}
