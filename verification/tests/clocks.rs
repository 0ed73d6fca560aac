use staking_ledger::clock::{
    epoch_wait_step, wait_epoch, wait_epochs, LedgerClock, WaitStep, BLOCKS_PER_BURST, MAX_BURSTS,
};
use staking_ledger::error::Error;

#[test]
fn a_clock_needs_epochs_of_at_least_one_block() {
    assert_eq!(LedgerClock::new(0, 1, 0), None);
    assert_eq!(
        LedgerClock::new(1, 2, 3),
        Some(LedgerClock { height: 0, timestamp: 3, epoch_length: 1, block_time: 2 })
    );
}

#[test]
fn blocks_move_height_and_time() {
    let mut clock = LedgerClock::new(500, 1_000_000_000, 77).unwrap();
    clock.advance_blocks(3);
    assert_eq!(clock.height, 3);
    assert_eq!(clock.timestamp, 3_000_000_077);
    assert_eq!(clock.current_epoch(), 0);
    clock.advance_blocks(0);
    assert_eq!(clock.height, 3);
    clock.advance_blocks(497);
    assert_eq!(clock.height, 500);
    assert_eq!(clock.current_epoch(), 1);
    assert_eq!(clock.epoch_length, 500);
    assert_eq!(clock.block_time, 1_000_000_000);
}

#[test]
fn height_and_time_stop_at_the_largest_value() {
    let mut clock = LedgerClock::new(10, 3, 5).unwrap();
    clock.advance_blocks(u64::MAX - 1);
    assert_eq!(clock.height, u64::MAX - 1);
    assert_eq!(clock.timestamp, u64::MAX);
    clock.advance_blocks(2);
    assert_eq!(clock.height, u64::MAX);
    assert_eq!(clock.timestamp, u64::MAX);

    let mut clock = LedgerClock::new(10, 2, u64::MAX - 7).unwrap();
    clock.advance_blocks(3);
    assert_eq!(clock.timestamp, u64::MAX - 1);
    clock.advance_blocks(1);
    assert_eq!(clock.timestamp, u64::MAX);
}

#[test]
fn wait_for_one_epoch_counts_whole_bursts() {
    let mut clock = LedgerClock::new(500, 1, 0).unwrap();
    assert_eq!(wait_epoch(&mut clock), Ok(500));
    assert_eq!(clock.height, 500);
    assert_eq!(clock.current_epoch(), 1);

    let mut clock = LedgerClock::new(500, 1, 0).unwrap();
    clock.advance_blocks(450);
    assert_eq!(wait_epoch(&mut clock), Ok(100));
    assert_eq!(clock.height, 550);
    assert_eq!(clock.current_epoch(), 1);

    // a burst may cross more than one epoch
    let mut clock = LedgerClock::new(30, 1, 0).unwrap();
    assert_eq!(wait_epoch(&mut clock), Ok(100));
    assert_eq!(clock.current_epoch(), 3);
}

#[test]
fn wait_for_five_epochs() {
    let mut clock = LedgerClock::new(500, 2, 0).unwrap();
    assert_eq!(wait_epochs(&mut clock, 5), Ok(()));
    assert_eq!(clock.height, 2500);
    assert_eq!(clock.timestamp, 5000);
    assert_eq!(clock.current_epoch(), 5);

    let mut clock = LedgerClock::new(250, 1, 0).unwrap();
    assert_eq!(wait_epochs(&mut clock, 3), Ok(()));
    // 300, 500 and 800: each wait ends with the first burst in a new epoch
    assert_eq!(clock.height, 800);
    assert_eq!(clock.current_epoch(), 3);

    let mut clock = LedgerClock::new(500, 1, 0).unwrap();
    assert_eq!(wait_epochs(&mut clock, 0), Ok(()));
    assert_eq!(clock.height, 0);
}

#[test]
fn the_last_burst_allowed_may_still_cross() {
    let mut clock = LedgerClock::new(BLOCKS_PER_BURST * MAX_BURSTS, 1, 0).unwrap();
    assert_eq!(wait_epoch(&mut clock), Ok(1_000_000));
    assert_eq!(clock.current_epoch(), 1);
}

#[test]
fn a_stalled_clock_is_reported() {
    let mut clock = LedgerClock::new(BLOCKS_PER_BURST * MAX_BURSTS + 1, 1, 0).unwrap();
    assert_eq!(wait_epoch(&mut clock), Err(Error::ClockStalled));
    assert_eq!(clock.height, 1_000_000);
    assert_eq!(clock.current_epoch(), 0);

    // a clock at the end of time cannot move at all
    let mut clock = LedgerClock::new(7, 1, 0).unwrap();
    clock.advance_blocks(u64::MAX);
    assert_eq!(wait_epoch(&mut clock), Err(Error::ClockStalled));
    assert_eq!(clock.height, u64::MAX);
}

#[test]
fn waiting_stops_at_the_first_stall() {
    let mut clock = LedgerClock::new(1_000, 1, 0).unwrap();
    clock.advance_blocks(u64::MAX - 1_500);
    let start: u64 = clock.current_epoch();
    assert_eq!(wait_epochs(&mut clock, 3), Err(Error::ClockStalled));
    assert_eq!(clock.height, u64::MAX);
    assert!(clock.current_epoch() > start);
}

#[test]
fn decision_after_each_burst() {
    assert_eq!(epoch_wait_step(true, 1), WaitStep::Done);
    assert_eq!(epoch_wait_step(true, MAX_BURSTS), WaitStep::Done);
    assert_eq!(epoch_wait_step(true, MAX_BURSTS + 1), WaitStep::Done);
    assert_eq!(epoch_wait_step(false, 1), WaitStep::Advance);
    assert_eq!(epoch_wait_step(false, MAX_BURSTS - 1), WaitStep::Advance);
    assert_eq!(epoch_wait_step(false, MAX_BURSTS), WaitStep::Stalled);
    assert_eq!(epoch_wait_step(false, u64::MAX), WaitStep::Stalled);
    assert_eq!(BLOCKS_PER_BURST, 100);
    assert_eq!(MAX_BURSTS, 10_000);
}
