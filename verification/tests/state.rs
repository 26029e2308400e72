use my_first_contract::state::{Entry, Priority, Status};

#[test]
fn status_codes() {
    assert_eq!(Status::ToDo.to_code(), 0);
    assert_eq!(Status::InProgress.to_code(), 1);
    assert_eq!(Status::Done.to_code(), 2);
    assert_eq!(Status::from_code(0), Some(Status::ToDo));
    assert_eq!(Status::from_code(1), Some(Status::InProgress));
    assert_eq!(Status::from_code(2), Some(Status::Done));
    assert_eq!(Status::from_code(3), None);
    assert_eq!(Status::from_code(255), None);
}

#[test]
fn priority_codes() {
    assert_eq!(Priority::Unset.to_code(), 0);
    assert_eq!(Priority::Low.to_code(), 1);
    assert_eq!(Priority::Medium.to_code(), 2);
    assert_eq!(Priority::High.to_code(), 3);
    assert_eq!(Priority::from_code(0), Some(Priority::Unset));
    assert_eq!(Priority::from_code(1), Some(Priority::Low));
    assert_eq!(Priority::from_code(2), Some(Priority::Medium));
    assert_eq!(Priority::from_code(3), Some(Priority::High));
    assert_eq!(Priority::from_code(4), None);
    assert_eq!(Priority::from_code(255), None);
}

#[test]
fn every_code_reads_back_as_what_was_written() {
    for status in [Status::ToDo, Status::InProgress, Status::Done] {
        assert_eq!(Status::from_code(status.to_code()), Some(status));
    }
    for priority in [Priority::Unset, Priority::Low, Priority::Medium, Priority::High] {
        assert_eq!(Priority::from_code(priority.to_code()), Some(priority));
    }
}

#[test]
fn new_entry_defaults() {
    assert_eq!(
        Entry::new(7, "buy milk".to_string(), None),
        Entry {
            id: 7,
            description: "buy milk".to_string(),
            status: Status::ToDo,
            priority: Priority::Unset,
        }
    );
    assert_eq!(
        Entry::new(8, "ship".to_string(), Some(Priority::Medium)),
        Entry {
            id: 8,
            description: "ship".to_string(),
            status: Status::ToDo,
            priority: Priority::Medium,
        }
    );
}

#[test]
fn merge_keeps_what_is_left_out() {
    let entry = Entry {
        id: 3,
        description: "buy milk".to_string(),
        status: Status::InProgress,
        priority: Priority::Low,
    };
    assert_eq!(entry.clone().merge(None, None, None), entry);
    assert_eq!(
        entry.clone().merge(Some("buy tea".to_string()), None, None),
        Entry { description: "buy tea".to_string(), ..entry.clone() }
    );
    assert_eq!(
        entry.clone().merge(None, Some(Status::Done), None),
        Entry { status: Status::Done, ..entry.clone() }
    );
    assert_eq!(
        entry.clone().merge(None, None, Some(Priority::High)),
        Entry { priority: Priority::High, ..entry.clone() }
    );
    assert_eq!(
        entry.clone().merge(Some(String::new()), Some(Status::ToDo), Some(Priority::Unset)),
        Entry {
            id: 3,
            description: String::new(),
            status: Status::ToDo,
            priority: Priority::Unset,
        }
    );
}

#[test]
fn record_is_description_then_codes() {
    let entry = Entry {
        id: 3,
        description: "buy milk".to_string(),
        status: Status::Done,
        priority: Priority::High,
    };
    assert_eq!(entry.clone().into_record(), ("buy milk".to_string(), 2, 3));
    assert_eq!(Entry::from_record(3, ("buy milk".to_string(), 2, 3)), Some(entry));
    assert_eq!(
        Entry::from_record(9, ("x".to_string(), 0, 0)),
        Some(Entry::new(9, "x".to_string(), None))
    );
}

#[test]
fn record_with_unknown_codes_reads_as_nothing() {
    assert_eq!(Entry::from_record(1, ("x".to_string(), 3, 0)), None);
    assert_eq!(Entry::from_record(1, ("x".to_string(), 0, 4)), None);
    assert_eq!(Entry::from_record(1, ("x".to_string(), 200, 200)), None);
}
