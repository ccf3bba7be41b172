use pg_event_trigger::cell::{Admission, RuntimeCell};
use pg_event_trigger::resolver::ResolveError;
use pg_event_trigger::run::BootstrapError;

fn fetch_failed(why: &str) -> BootstrapError {
    BootstrapError::Resolve(ResolveError::Fetch(why.to_string()))
}

#[test]
fn new_cell_asks_for_a_bootstrap() {
    let cell: RuntimeCell<u32> = RuntimeCell::new();
    assert!(matches!(cell, RuntimeCell::Uninitialized));
    assert!(matches!(cell.enter(), Admission::Bootstrap));
}

#[test]
fn installed_application_serves_every_later_call() {
    let mut cell: RuntimeCell<u32> = RuntimeCell::new();
    cell.install(Ok(7));
    for _ in 0..5 {
        match cell.enter() {
            Admission::Proceed(running) => assert_eq!(*running, 7),
            _ => panic!("the call was not let through"),
        }
    }
}

#[test]
fn installed_failure_refuses_every_later_call() {
    let mut cell: RuntimeCell<u32> = RuntimeCell::new();
    cell.install(Err(fetch_failed("registry down")));
    for _ in 0..5 {
        match cell.enter() {
            Admission::Refuse(e) => assert_eq!(e, &fetch_failed("registry down")),
            _ => panic!("the call was not refused"),
        }
    }
}

#[test]
fn only_the_first_outcome_is_kept() {
    let mut cell: RuntimeCell<u32> = RuntimeCell::new();
    cell.install(Ok(1));
    cell.install(Ok(2));
    cell.install(Err(fetch_failed("late")));
    assert!(matches!(cell.enter(), Admission::Proceed(&1)));

    let mut cell: RuntimeCell<u32> = RuntimeCell::new();
    cell.install(Err(fetch_failed("first")));
    cell.install(Ok(3));
    cell.install(Err(fetch_failed("second")));
    match cell.enter() {
        Admission::Refuse(e) => assert_eq!(e, &fetch_failed("first")),
        _ => panic!("the failure was forgotten"),
    }
}

#[test]
fn calls_in_a_row_bootstrap_once() {
    let mut cell: RuntimeCell<usize> = RuntimeCell::new();
    let mut bootstraps = 0;
    let mut seen = vec![];
    for call in 0..10 {
        if let Admission::Bootstrap = cell.enter() {
            bootstraps += 1;
            cell.install(Ok(100 + call));
        }
        match cell.enter() {
            Admission::Proceed(running) => seen.push(*running),
            _ => panic!("the call was not let through"),
        }
    }
    assert_eq!(bootstraps, 1);
    assert_eq!(seen, vec![100; 10]);
}

#[test]
fn calls_in_a_row_fail_alike_after_a_failed_bootstrap() {
    let mut cell: RuntimeCell<usize> = RuntimeCell::new();
    let mut bootstraps = 0;
    let mut failures = 0;
    for call in 0..10 {
        if let Admission::Bootstrap = cell.enter() {
            bootstraps += 1;
            cell.install(Err(fetch_failed(&format!("attempt {}", call))));
        }
        match cell.enter() {
            Admission::Refuse(e) => {
                assert_eq!(e, &fetch_failed("attempt 0"));
                failures += 1;
            },
            _ => panic!("the call was not refused"),
        }
    }
    assert_eq!(bootstraps, 1);
    assert_eq!(failures, 10);
}

#[test]
fn get_or_init_bootstraps_an_empty_cell_only() {
    let mut cell: RuntimeCell<u32> = RuntimeCell::new();
    let mut bootstraps = 0;
    for call in 0..6 {
        cell.get_or_init(|| {
            bootstraps += 1;
            Ok(40 + call)
        });
        assert!(matches!(cell.enter(), Admission::Proceed(&40)));
    }
    assert_eq!(bootstraps, 1);
}

#[test]
fn get_or_init_keeps_a_failure() {
    let mut cell: RuntimeCell<u32> = RuntimeCell::new();
    let mut bootstraps = 0;
    for _ in 0..6 {
        cell.get_or_init(|| {
            bootstraps += 1;
            if bootstraps == 1 {
                Err(fetch_failed("registry down"))
            } else {
                Ok(1)
            }
        });
        match cell.enter() {
            Admission::Refuse(e) => assert_eq!(e, &fetch_failed("registry down")),
            _ => panic!("the call was not refused"),
        }
    }
    assert_eq!(bootstraps, 1);
}

#[test]
fn get_or_init_leaves_an_installed_outcome() {
    let mut cell: RuntimeCell<u32> = RuntimeCell::new();
    cell.install(Ok(9));
    cell.get_or_init(|| panic!("the cell is filled"));
    assert!(matches!(cell.enter(), Admission::Proceed(&9)));
}
