use greywater::scheduler::{Action, Event, Phase, Sampler, SUBSAMPLES};

fn report_of(action: Action) -> Vec<Option<u64>> {
    match action {
        Action::Report(readings) => readings,
        other => panic!("expected a report, got {:?}", other),
    }
}

#[test]
fn cycle_reports_median_of_five_samples() {
    let mut sampler = Sampler::new(1);
    let samples = [1_000, 1_200, 1_100, 5_000, 1_100];
    assert!(matches!(sampler.step(Event::Tick), Action::Measure(0)));
    let mut last = Action::Wait;
    for (i, &s) in samples.iter().enumerate() {
        assert!(matches!(sampler.step(Event::Sampled(s)), Action::Settle));
        last = sampler.step(Event::Settled);
        if i + 1 < SUBSAMPLES {
            assert!(matches!(last, Action::Measure(0)));
        }
    }
    assert_eq!(report_of(last), vec![Some(1_100)]);
    assert_eq!(sampler.phase(), Phase::Idle);
    assert!(matches!(sampler.action(), Action::Wait));
}

#[test]
fn two_channels_are_filtered_apart() {
    let mut sampler = Sampler::new(2);
    assert_eq!(sampler.channels(), 2);
    assert!(matches!(sampler.step(Event::Tick), Action::Measure(0)));
    let clear = [10, 12, 11, 50, 11];
    let reactor = [300, 310, 290, 305, 295];
    let mut last = Action::Wait;
    for round in 0..SUBSAMPLES {
        assert!(matches!(sampler.step(Event::Sampled(clear[round])), Action::Measure(1)));
        assert!(matches!(sampler.step(Event::Sampled(reactor[round])), Action::Settle));
        last = sampler.step(Event::Settled);
    }
    assert_eq!(report_of(last), vec![Some(11), Some(300)]);
}

#[test]
fn failed_sample_is_skipped() {
    let mut sampler = Sampler::new(2);
    sampler.step(Event::Tick);
    let mut last = Action::Wait;
    for round in 0..SUBSAMPLES {
        sampler.step(Event::Sampled(100 + round as u64));
        sampler.step(Event::SampleFailed);
        last = sampler.step(Event::Settled);
    }
    assert_eq!(report_of(last), vec![Some(102), None]);
}

#[test]
fn events_out_of_place_change_nothing() {
    let mut sampler = Sampler::new(1);
    assert!(matches!(sampler.step(Event::Settled), Action::Wait));
    assert!(matches!(sampler.step(Event::Sampled(5)), Action::Wait));
    assert_eq!(sampler.phase(), Phase::Idle);
    assert!(matches!(sampler.step(Event::Tick), Action::Measure(0)));
    assert!(matches!(sampler.step(Event::Tick), Action::Measure(0)));
    assert!(matches!(sampler.step(Event::Settled), Action::Measure(0)));
    assert_eq!(sampler.phase(), Phase::Sampling { round: 0, channel: 0 });
    assert_eq!(sampler.readings(), vec![None]);
}

#[test]
fn filters_carry_over_between_cycles() {
    let mut sampler = Sampler::new(1);
    for cycle in 0..2u64 {
        sampler.step(Event::Tick);
        let mut last = Action::Wait;
        for _ in 0..SUBSAMPLES {
            sampler.step(Event::Sampled(10 * (cycle + 1)));
            last = sampler.step(Event::Settled);
        }
        assert_eq!(report_of(last), vec![Some(10 * (cycle + 1))]);
    }
}

#[test]
fn sampler_without_channels_still_reports() {
    let mut sampler = Sampler::new(0);
    assert!(matches!(sampler.step(Event::Tick), Action::Settle));
    let mut last = Action::Wait;
    for _ in 0..SUBSAMPLES {
        last = sampler.step(Event::Settled);
    }
    assert_eq!(report_of(last), Vec::<Option<u64>>::new());
}
