use metal_prices::client::FetchError;
use metal_prices::refresher::{RefreshAction, RefreshEvent, RefreshPhase, Refresher};
use metal_prices::state::MetalState;

fn bits(price: f64) -> u64 {
    price.to_bits()
}

#[test]
fn first_request_is_a_fetch_without_a_sleep() {
    let (refresher, first) = Refresher::start(3600);
    assert_eq!(first, RefreshAction::Fetch);
    assert_eq!(refresher.phase, RefreshPhase::Fetching);
    assert_eq!(refresher.interval_secs, 3600);
}

#[test]
fn successful_fetch_updates_the_cache_then_sleeps() {
    let mut cache = MetalState::new();
    let (mut refresher, _) = Refresher::start(60);
    let action = refresher.step(&mut cache, RefreshEvent::Fetched(Ok((bits(1800.5), bits(23.75)))));
    assert_eq!(action, RefreshAction::Sleep { secs: 60 });
    assert_eq!(refresher.phase, RefreshPhase::Sleeping);
    assert_eq!(cache.get_prices(), (bits(1800.5), bits(23.75)));
}

#[test]
fn failed_fetch_leaves_the_cache_untouched() {
    let mut cache = MetalState::new();
    let (mut refresher, _) = Refresher::start(60);
    refresher.step(&mut cache, RefreshEvent::Fetched(Ok((bits(1800.5), bits(23.75)))));
    refresher.step(&mut cache, RefreshEvent::SleepElapsed);
    let before = cache.get_prices();

    let failures = [
        FetchError::Unreachable,
        FetchError::BadStatus(500),
        FetchError::MalformedPayload,
        FetchError::MissingPrices,
    ];
    for failure in failures {
        let action = refresher.step(&mut cache, RefreshEvent::Fetched(Err(failure)));
        assert_eq!(action, RefreshAction::Sleep { secs: 60 });
        assert_eq!(cache.get_prices(), before);
        assert_eq!(refresher.step(&mut cache, RefreshEvent::SleepElapsed), RefreshAction::Fetch);
    }
    assert_eq!(cache.get_prices(), (bits(1800.5), bits(23.75)));
}

#[test]
fn cache_stays_zero_until_a_fetch_succeeds() {
    let mut cache = MetalState::new();
    let (mut refresher, _) = Refresher::start(5);
    for _ in 0..10 {
        refresher.step(&mut cache, RefreshEvent::Fetched(Err(FetchError::Unreachable)));
        assert_eq!(cache.get_prices(), (bits(0.0), bits(0.0)));
        refresher.step(&mut cache, RefreshEvent::SleepElapsed);
        assert_eq!(cache.get_prices(), (bits(0.0), bits(0.0)));
    }
}

#[test]
fn fetches_alternate_with_sleeps_of_the_interval() {
    let mut cache = MetalState::new();
    let (mut refresher, first) = Refresher::start(7);
    let mut action = first;
    let mut asked = Vec::new();
    for tick in 0..6u64 {
        asked.push(action);
        action = match action {
            RefreshAction::Fetch => {
                let outcome = if tick % 4 == 0 {
                    Err(FetchError::BadStatus(503))
                } else {
                    Ok((bits(tick as f64), bits(1.0)))
                };
                refresher.step(&mut cache, RefreshEvent::Fetched(outcome))
            }
            RefreshAction::Sleep { secs } => {
                assert_eq!(secs, 7);
                refresher.step(&mut cache, RefreshEvent::SleepElapsed)
            }
            other => panic!("the schedule asked for {:?}", other),
        };
    }
    assert_eq!(
        asked,
        vec![
            RefreshAction::Fetch,
            RefreshAction::Sleep { secs: 7 },
            RefreshAction::Fetch,
            RefreshAction::Sleep { secs: 7 },
            RefreshAction::Fetch,
            RefreshAction::Sleep { secs: 7 },
        ]
    );
    assert_eq!(cache.get_prices(), (bits(2.0), bits(1.0)));
}

#[test]
fn reports_out_of_turn_are_set_aside() {
    let mut cache = MetalState::new();
    let (mut refresher, _) = Refresher::start(30);

    assert_eq!(refresher.step(&mut cache, RefreshEvent::SleepElapsed), RefreshAction::Continue);
    assert_eq!(refresher.phase, RefreshPhase::Fetching);

    refresher.step(&mut cache, RefreshEvent::Fetched(Ok((bits(10.0), bits(20.0)))));
    let late = refresher.step(&mut cache, RefreshEvent::Fetched(Ok((bits(11.0), bits(21.0)))));
    assert_eq!(late, RefreshAction::Continue);
    assert_eq!(refresher.phase, RefreshPhase::Sleeping);
    assert_eq!(cache.get_prices(), (bits(10.0), bits(20.0)));
}

#[test]
fn cancellation_stops_the_schedule_for_good() {
    let mut cache = MetalState::new();
    let (mut refresher, _) = Refresher::start(30);
    refresher.step(&mut cache, RefreshEvent::Fetched(Ok((bits(10.0), bits(20.0)))));

    assert_eq!(refresher.step(&mut cache, RefreshEvent::Cancelled), RefreshAction::Stop);
    assert_eq!(refresher.phase, RefreshPhase::Stopped);

    let later = [
        RefreshEvent::SleepElapsed,
        RefreshEvent::Fetched(Ok((bits(1.0), bits(2.0)))),
        RefreshEvent::Fetched(Err(FetchError::Unreachable)),
        RefreshEvent::Cancelled,
    ];
    for event in later {
        assert_eq!(refresher.step(&mut cache, event), RefreshAction::Stop);
        assert_eq!(refresher.phase, RefreshPhase::Stopped);
        assert_eq!(cache.get_prices(), (bits(10.0), bits(20.0)));
    }
}

#[test]
fn cancellation_while_fetching_stops_at_once() {
    let mut cache = MetalState::new();
    let (mut refresher, _) = Refresher::start(30);
    assert_eq!(refresher.step(&mut cache, RefreshEvent::Cancelled), RefreshAction::Stop);
    assert_eq!(refresher.phase, RefreshPhase::Stopped);
    assert_eq!(cache.get_prices(), (0, 0));
}

#[test]
fn zero_interval_asks_for_a_sleep_of_zero_seconds() {
    let mut cache = MetalState::new();
    let (mut refresher, _) = Refresher::start(0);
    let action = refresher.step(&mut cache, RefreshEvent::Fetched(Err(FetchError::Unreachable)));
    assert_eq!(action, RefreshAction::Sleep { secs: 0 });
}

#[test]
fn fetched_zero_reads_like_a_new_cache() {
    let mut cache = MetalState::new();
    let (mut refresher, _) = Refresher::start(30);
    let action = refresher.step(&mut cache, RefreshEvent::Fetched(Ok((bits(0.0), bits(0.0)))));
    assert_eq!(action, RefreshAction::Sleep { secs: 30 });
    assert_eq!(cache.get_prices(), MetalState::new().get_prices());
}
