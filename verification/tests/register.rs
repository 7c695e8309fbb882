use replication_lag::reader::{ReadOutcome, ReaderAction};
use replication_lag::register::{Registers, Role};
use replication_lag::reporter::LagReport;

#[test]
fn role_names() {
    assert_eq!(Role::Primary.name(), "primary");
    assert_eq!(Role::Secondary.name(), "secondary");
}

#[test]
fn fresh_registers_hold_the_sentinel() {
    let registers = Registers::new();
    assert_eq!(registers.load(Role::Primary), 0);
    assert_eq!(registers.load(Role::Secondary), 0);
}

#[test]
fn store_overwrites_one_register() {
    let mut registers = Registers::new();
    registers.store(Role::Primary, 1000);
    assert_eq!(registers, Registers { primary: 1000, secondary: 0 });
    registers.store(Role::Secondary, 900);
    assert_eq!(registers, Registers { primary: 1000, secondary: 900 });
    registers.store(Role::Primary, 5);
    assert_eq!(registers.load(Role::Primary), 5);
    assert_eq!(registers.load(Role::Secondary), 900);
}

#[test]
fn observing_a_row_updates_the_owning_register() {
    let mut registers = Registers { primary: 10, secondary: 20 };
    let action = registers.observe(Role::Secondary, &ReadOutcome::Row { id: 3, value: 1000 });
    assert_eq!(action, ReaderAction::Store(1000));
    assert_eq!(registers, Registers { primary: 10, secondary: 1000 });
}

#[test]
fn observing_an_empty_store_on_first_call_keeps_the_sentinel() {
    let mut registers = Registers::new();
    let action = registers.observe(Role::Primary, &ReadOutcome::Empty);
    assert_eq!(action, ReaderAction::Keep);
    assert_eq!(registers, Registers { primary: 0, secondary: 0 });
}

#[test]
fn observing_an_empty_store_keeps_the_prior_value() {
    let mut registers = Registers { primary: 1000, secondary: 900 };
    registers.observe(Role::Primary, &ReadOutcome::Empty);
    registers.observe(Role::Secondary, &ReadOutcome::Empty);
    assert_eq!(registers, Registers { primary: 1000, secondary: 900 });
}

#[test]
fn observing_a_failure_keeps_the_prior_value() {
    let mut registers = Registers { primary: 1000, secondary: 900 };
    let action = registers.observe(Role::Secondary, &ReadOutcome::Failed);
    assert_eq!(action, ReaderAction::ReportFailure);
    assert_eq!(registers, Registers { primary: 1000, secondary: 900 });
}

#[test]
fn register_may_step_back_to_an_older_row() {
    let mut registers = Registers::new();
    registers.observe(Role::Primary, &ReadOutcome::Row { id: 2, value: 2000 });
    registers.observe(Role::Primary, &ReadOutcome::Row { id: 1, value: 1000 });
    assert_eq!(registers.load(Role::Primary), 1000);
}

#[test]
fn snapshot_reports_both_registers_and_their_distance() {
    let registers = Registers { primary: 1000, secondary: 400 };
    assert_eq!(
        registers.snapshot(),
        LagReport { primary_value: 1000, secondary_value: 400, lag_ms: 600 }
    );
    assert_eq!(registers, Registers { primary: 1000, secondary: 400 });
}
