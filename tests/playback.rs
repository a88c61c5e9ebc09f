use exactly_sim::clock::{Action, SimulationClock};
use exactly_sim::error::SimError;
use exactly_sim::price_changer::PriceChanger;

#[test]
fn playback_runs_step_count_times() {
    let mut p = PriceChanger::new("WETH", vec![100, 101, 99, 102]).unwrap();
    assert_eq!(p.symbol, "WETH");
    assert_eq!(p.update_price(), Ok(101));
    assert_eq!(p.update_price(), Ok(99));
    assert_eq!(p.update_price(), Ok(102));
    assert_eq!(p.update_price(), Err(SimError::TrajectoryExhausted));
    assert_eq!(p.update_price(), Err(SimError::TrajectoryExhausted));
    assert_eq!(p.index, 4);
}

#[test]
fn trajectory_without_steps_is_rejected() {
    assert!(matches!(PriceChanger::new("OP", vec![7]), Err(SimError::Configuration)));
    assert!(matches!(PriceChanger::new("OP", vec![]), Err(SimError::Configuration)));
}

#[test]
fn clock_orders_prices_before_scan() {
    let mut clock = SimulationClock::new(&vec![3, 2], 1_000, 12).unwrap();
    let mut actions = vec![];
    loop {
        let a = clock.next_action();
        actions.push(a);
        if a == Action::Stop {
            break;
        }
    }
    assert_eq!(
        actions,
        vec![
            Action::AdvanceBlock { number: 1, timestamp: 1_012 },
            Action::UpdatePrice { market: 0 },
            Action::UpdatePrice { market: 1 },
            Action::CheckLiquidations,
            Action::AdvanceBlock { number: 2, timestamp: 1_024 },
            Action::UpdatePrice { market: 0 },
            Action::UpdatePrice { market: 1 },
            Action::CheckLiquidations,
            Action::Stop,
        ]
    );
    assert_eq!(clock.next_action(), Action::Stop);
}

#[test]
fn clock_rejects_bad_configuration() {
    assert!(matches!(SimulationClock::new(&vec![], 0, 12), Err(SimError::Configuration)));
    assert!(matches!(SimulationClock::new(&vec![1, 1], 0, 12), Err(SimError::Configuration)));
    assert!(matches!(SimulationClock::new(&vec![5], 0, 0), Err(SimError::Configuration)));
    assert!(matches!(
        SimulationClock::new(&vec![5], u64::MAX - 10, 12),
        Err(SimError::Configuration)
    ));
}
