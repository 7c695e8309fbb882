use replication_lag::monitor::{step, Effect, Event};
use replication_lag::reader::ReadOutcome;
use replication_lag::register::{Registers, Role};
use replication_lag::reporter::LagReport;
use replication_lag::writer::WriteOutcome;

fn row(id: i64, value: i64) -> Event {
    Event::Polled(Role::Primary, ReadOutcome::Row { id, value })
}

fn replica_row(id: i64, value: i64) -> Event {
    Event::Polled(Role::Secondary, ReadOutcome::Row { id, value })
}

#[test]
fn replica_lags_then_catches_up() {
    let mut registers = Registers::new();

    // t = 0: the writer persists marker 1000.
    assert_eq!(step(&mut registers, &Event::Wrote(WriteOutcome::Persisted)), Effect::Silent);
    assert_eq!(registers, Registers { primary: 0, secondary: 0 });

    // t = 250 ms: the primary shows the row, the replica shows none yet.
    assert_eq!(step(&mut registers, &row(1, 1000)), Effect::Silent);
    assert_eq!(
        step(&mut registers, &Event::Polled(Role::Secondary, ReadOutcome::Empty)),
        Effect::Silent
    );
    assert_eq!(
        step(&mut registers, &Event::ReportDue),
        Effect::Report(LagReport { primary_value: 1000, secondary_value: 0, lag_ms: 1000 })
    );

    // t = 500 ms: the replica has caught up.
    assert_eq!(step(&mut registers, &row(1, 1000)), Effect::Silent);
    assert_eq!(step(&mut registers, &replica_row(1, 1000)), Effect::Silent);
    assert_eq!(
        step(&mut registers, &Event::ReportDue),
        Effect::Report(LagReport { primary_value: 1000, secondary_value: 1000, lag_ms: 0 })
    );
}

#[test]
fn replica_register_is_pinned_over_three_failures() {
    let mut registers = Registers::new();
    step(&mut registers, &row(1, 1000));
    step(&mut registers, &replica_row(1, 1000));

    let failed = Event::Polled(Role::Secondary, ReadOutcome::Failed);
    for tick in 2..5 {
        step(&mut registers, &row(tick, 1000 * tick));
        assert_eq!(step(&mut registers, &failed), Effect::ReadFailure(Role::Secondary));
        assert_eq!(registers.load(Role::Secondary), 1000);
    }
    assert_eq!(registers, Registers { primary: 4000, secondary: 1000 });

    // Fourth tick: the query succeeds and the register jumps to the latest marker.
    step(&mut registers, &row(5, 5000));
    assert_eq!(step(&mut registers, &replica_row(5, 5000)), Effect::Silent);
    assert_eq!(registers, Registers { primary: 5000, secondary: 5000 });
}

#[test]
fn report_before_any_poll_shows_zeros() {
    let mut registers = Registers::new();
    assert_eq!(
        step(&mut registers, &Event::ReportDue),
        Effect::Report(LagReport { primary_value: 0, secondary_value: 0, lag_ms: 0 })
    );
    assert_eq!(registers, Registers { primary: 0, secondary: 0 });
}

#[test]
fn report_never_goes_negative_when_secondary_is_ahead() {
    let mut registers = Registers { primary: 1000, secondary: 1250 };
    assert_eq!(
        step(&mut registers, &Event::ReportDue),
        Effect::Report(LagReport { primary_value: 1000, secondary_value: 1250, lag_ms: 250 })
    );
}

#[test]
fn failed_write_changes_no_register_and_the_next_write_goes_through() {
    let mut registers = Registers { primary: 1000, secondary: 900 };
    assert_eq!(step(&mut registers, &Event::Wrote(WriteOutcome::Failed)), Effect::WriteFailure);
    assert_eq!(registers, Registers { primary: 1000, secondary: 900 });
    assert_eq!(step(&mut registers, &Event::Wrote(WriteOutcome::Persisted)), Effect::Silent);
    assert_eq!(registers, Registers { primary: 1000, secondary: 900 });
    assert_eq!(step(&mut registers, &row(2, 2000)), Effect::Silent);
    assert_eq!(registers, Registers { primary: 2000, secondary: 900 });
}

#[test]
fn failed_read_changes_no_register_and_the_next_read_goes_through() {
    let mut registers = Registers { primary: 1000, secondary: 900 };
    assert_eq!(
        step(&mut registers, &Event::Polled(Role::Primary, ReadOutcome::Failed)),
        Effect::ReadFailure(Role::Primary)
    );
    assert_eq!(registers, Registers { primary: 1000, secondary: 900 });
    assert_eq!(step(&mut registers, &row(2, 2000)), Effect::Silent);
    assert_eq!(registers, Registers { primary: 2000, secondary: 900 });
}

#[test]
fn empty_store_leaves_fresh_registers_at_the_sentinel() {
    let mut registers = Registers::new();
    assert_eq!(
        step(&mut registers, &Event::Polled(Role::Primary, ReadOutcome::Empty)),
        Effect::Silent
    );
    assert_eq!(
        step(&mut registers, &Event::Polled(Role::Secondary, ReadOutcome::Empty)),
        Effect::Silent
    );
    assert_eq!(registers, Registers { primary: 0, secondary: 0 });
}

#[test]
fn primary_register_follows_increasing_writes() {
    let mut registers = Registers::new();
    let mut last = 0;
    let mut id = 0;
    for marker in [1000, 2000, 2000, 3500, 9000] {
        id += 1;
        step(&mut registers, &Event::Wrote(WriteOutcome::Persisted));
        step(&mut registers, &row(id, marker));
        assert!(registers.load(Role::Primary) >= last);
        last = registers.load(Role::Primary);
    }
    assert_eq!(last, 9000);
    assert_eq!(registers.load(Role::Secondary), 0);
}

#[test]
fn primary_register_drops_when_markers_cross_zero() {
    let mut registers = Registers::new();
    step(&mut registers, &row(1, -5));
    assert_eq!(registers.load(Role::Primary), 18_446_744_073_709_551_611);
    step(&mut registers, &row(2, 3));
    assert_eq!(registers.load(Role::Primary), 3);
}

#[test]
fn readers_write_to_distinct_registers() {
    let mut registers = Registers::new();
    step(&mut registers, &row(1, 111));
    assert_eq!(registers, Registers { primary: 111, secondary: 0 });
    step(&mut registers, &replica_row(1, 222));
    assert_eq!(registers, Registers { primary: 111, secondary: 222 });
}
