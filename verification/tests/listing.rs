use cosmwasm_std::testing::{mock_dependencies, MockApi, MockQuerier, MockStorage};
use cosmwasm_std::{OwnedDeps, Storage};
use my_first_contract::contract::execute::{create_entry, delete_entry, update_entry};
use my_first_contract::contract::instantiate;
use my_first_contract::contract::query::{
    next_entry, page_length, query_list, scanned, DEFAULT_LIMIT, MAX_LIMIT,
};
use my_first_contract::error::ContractError;
use my_first_contract::ledger::{Ledger, LedgerView};
use my_first_contract::msg::InstantiateMsg;
use my_first_contract::state::{Entry, Priority, Status};

type Chain = OwnedDeps<MockStorage, MockApi, MockQuerier>;

fn ledger_with(entries: u64) -> Chain {
    let mut owned = mock_dependencies();
    instantiate(
        &mut Ledger { deps: owned.as_mut() },
        "alice".to_string(),
        InstantiateMsg { owner: None },
    )
    .unwrap();
    for n in 1..=entries {
        let id = create_entry(
            &mut Ledger { deps: owned.as_mut() },
            "alice",
            format!("task {n}"),
            None,
        )
        .unwrap();
        assert_eq!(id, n);
    }
    owned
}

fn ids(owned: &Chain, start_after: Option<u64>, limit: Option<u32>) -> Vec<u64> {
    let list = query_list(&LedgerView { deps: owned.as_ref() }, start_after, limit).unwrap();
    list.entries.iter().map(|entry| entry.id).collect()
}

fn put_raw(owned: &mut Chain, id: u64, record: (String, u8, u8)) {
    cw_storage_plus::Map::<u64, (String, u8, u8)>::new("list")
        .save(&mut owned.storage, id, &record)
        .unwrap();
}

#[test]
fn page_length_is_the_request_capped() {
    assert_eq!(DEFAULT_LIMIT, 10);
    assert_eq!(MAX_LIMIT, 30);
    assert_eq!(page_length(None), 10);
    assert_eq!(page_length(Some(0)), 0);
    assert_eq!(page_length(Some(1)), 1);
    assert_eq!(page_length(Some(10)), 10);
    assert_eq!(page_length(Some(29)), 29);
    assert_eq!(page_length(Some(30)), 30);
    assert_eq!(page_length(Some(31)), 30);
    assert_eq!(page_length(Some(1000)), 30);
    assert_eq!(page_length(Some(u32::MAX)), 30);
}

#[test]
fn empty_ledger_lists_nothing() {
    let owned = ledger_with(0);
    assert_eq!(ids(&owned, None, None), Vec::<u64>::new());
    assert_eq!(ids(&owned, Some(0), Some(30)), Vec::<u64>::new());
}

#[test]
fn ledger_that_was_never_instantiated_lists_nothing() {
    let owned = mock_dependencies();
    let list = query_list(&LedgerView { deps: owned.as_ref() }, None, None).unwrap();
    assert_eq!(list.entries, vec![]);
}

#[test]
fn default_page_holds_the_first_ten() {
    let owned = ledger_with(15);
    assert_eq!(ids(&owned, None, None), vec![1, 2, 3, 4, 5, 6, 7, 8, 9, 10]);
}

#[test]
fn short_ledger_gives_a_short_page() {
    let owned = ledger_with(3);
    assert_eq!(ids(&owned, None, None), vec![1, 2, 3]);
    assert_eq!(ids(&owned, None, Some(30)), vec![1, 2, 3]);
    assert_eq!(ids(&owned, None, Some(3)), vec![1, 2, 3]);
    assert_eq!(ids(&owned, None, Some(2)), vec![1, 2]);
}

#[test]
fn no_page_is_longer_than_thirty() {
    let owned = ledger_with(35);
    let expected: Vec<u64> = (1..=30).collect();
    assert_eq!(ids(&owned, None, Some(1000)), expected);
    assert_eq!(ids(&owned, None, Some(31)), expected);
    assert_eq!(ids(&owned, None, Some(30)), expected);
    let expected: Vec<u64> = (1..=29).collect();
    assert_eq!(ids(&owned, None, Some(29)), expected);
}

#[test]
fn limit_zero_gives_an_empty_page() {
    let owned = ledger_with(5);
    assert_eq!(ids(&owned, None, Some(0)), Vec::<u64>::new());
    assert_eq!(ids(&owned, Some(2), Some(0)), Vec::<u64>::new());
}

#[test]
fn page_starts_strictly_after_the_cursor() {
    let owned = ledger_with(12);
    assert_eq!(ids(&owned, Some(5), None), vec![6, 7, 8, 9, 10, 11, 12]);
    assert_eq!(ids(&owned, Some(5), Some(3)), vec![6, 7, 8]);
    assert_eq!(ids(&owned, Some(0), Some(2)), vec![1, 2]);
    assert_eq!(ids(&owned, Some(11), None), vec![12]);
    assert_eq!(ids(&owned, Some(12), None), Vec::<u64>::new());
    assert_eq!(ids(&owned, Some(500), None), Vec::<u64>::new());
    assert_eq!(ids(&owned, Some(u64::MAX), None), Vec::<u64>::new());
}

#[test]
fn cursor_need_not_name_an_entry() {
    let mut owned = ledger_with(8);
    delete_entry(&mut Ledger { deps: owned.as_mut() }, "alice", 5).unwrap();
    assert_eq!(ids(&owned, Some(5), None), vec![6, 7, 8]);
    assert_eq!(ids(&owned, Some(4), None), vec![6, 7, 8]);
    assert_eq!(ids(&owned, Some(3), Some(2)), vec![4, 6]);
}

#[test]
fn deleted_entries_are_passed_over() {
    let mut owned = ledger_with(14);
    for id in [1, 2, 7, 14] {
        delete_entry(&mut Ledger { deps: owned.as_mut() }, "alice", id).unwrap();
    }
    assert_eq!(ids(&owned, None, None), vec![3, 4, 5, 6, 8, 9, 10, 11, 12, 13]);
    assert_eq!(ids(&owned, Some(6), Some(30)), vec![8, 9, 10, 11, 12, 13]);
}

#[test]
fn pages_follow_one_another_without_gap_or_overlap() {
    let mut owned = ledger_with(25);
    for id in [4, 10, 11, 20] {
        delete_entry(&mut Ledger { deps: owned.as_mut() }, "alice", id).unwrap();
    }
    let mut seen = Vec::new();
    let mut cursor = None;
    loop {
        let page = ids(&owned, cursor, Some(4));
        if page.is_empty() {
            break;
        }
        assert!(page.len() <= 4);
        cursor = page.last().copied();
        seen.extend(page);
    }
    let expected: Vec<u64> = (1..=25).filter(|id| ![4, 10, 11, 20].contains(id)).collect();
    assert_eq!(seen, expected);
}

#[test]
fn identifiers_are_ordered_as_numbers() {
    // 255 < 256 < 65536 as numbers; as little-endian bytes or as text they
    // would come in another order
    let mut owned = ledger_with(0);
    for id in [65536, 2, 256, 255, u64::MAX, 1 << 40] {
        put_raw(&mut owned, id, (format!("task {id}"), 0, 0));
    }
    assert_eq!(ids(&owned, None, None), vec![2, 255, 256, 65536, 1 << 40, u64::MAX]);
    assert_eq!(ids(&owned, Some(255), Some(2)), vec![256, 65536]);
    assert_eq!(ids(&owned, Some(u64::MAX - 1), None), vec![u64::MAX]);
}

#[test]
fn listed_entries_are_the_stored_ones() {
    let mut owned = ledger_with(0);
    create_entry(
        &mut Ledger { deps: owned.as_mut() },
        "alice",
        "buy milk".to_string(),
        Some(Priority::High),
    )
    .unwrap();
    create_entry(&mut Ledger { deps: owned.as_mut() }, "alice", "ship release".to_string(), None)
        .unwrap();
    update_entry(
        &mut Ledger { deps: owned.as_mut() },
        "alice",
        2,
        None,
        Some(Status::InProgress),
        Some(Priority::Medium),
    )
    .unwrap();
    let list = query_list(&LedgerView { deps: owned.as_ref() }, None, None).unwrap();
    assert_eq!(
        list.entries,
        vec![
            Entry {
                id: 1,
                description: "buy milk".to_string(),
                status: Status::ToDo,
                priority: Priority::High,
            },
            Entry {
                id: 2,
                description: "ship release".to_string(),
                status: Status::InProgress,
                priority: Priority::Medium,
            },
        ]
    );
}

#[test]
fn other_keys_in_storage_are_not_listed() {
    let mut owned = ledger_with(2);
    owned.storage.set(b"\x00\x04lisu\x00\x00\x00\x00\x00\x00\x00\x09", b"[\"next door\",0,0]");
    owned.storage.set(b"\x00\x03lis\x00\x00\x00\x00\x00\x00\x00\x09", b"[\"next door\",0,0]");
    owned.storage.set(b"list", b"[\"bare\",0,0]");
    assert_eq!(ids(&owned, None, None), vec![1, 2]);
}

#[test]
fn page_of_length_zero_is_no_error_whatever_is_stored() {
    let mut owned = ledger_with(0);
    put_raw(&mut owned, 1, ("bad".to_string(), 9, 9));
    let key = cw_storage_plus::Map::<u64, (String, u8, u8)>::new("list").key(2);
    owned.storage.set(&key, b"not json");
    owned.storage.set(b"\x00\x04listshort", b"[\"stray\",0,0]");
    let view = LedgerView { deps: owned.as_ref() };
    assert_eq!(query_list(&view, None, Some(0)).unwrap().entries, vec![]);
    assert_eq!(query_list(&view, Some(1), Some(0)).unwrap().entries, vec![]);
}

#[test]
fn key_that_is_no_identifier_fails_the_page_that_reaches_it() {
    // below the entries' key, but nine bytes long where an identifier has
    // eight: it sorts after identifier 0x6c6f = 27759 and before the next
    let mut owned = ledger_with(2);
    owned.storage.set(b"\x00\x04list\x00\x00\x00\x00\x00\x00\x6c\x6f\x01", b"[\"stray\",0,0]");
    let view = LedgerView { deps: owned.as_ref() };
    assert!(matches!(query_list(&view, None, None), Err(ContractError::Std(_))));
    assert!(matches!(query_list(&view, Some(2), Some(1)), Err(ContractError::Std(_))));
    // pages that stop short of it, or start past it, are fine
    assert_eq!(ids(&owned, None, Some(2)), vec![1, 2]);
    assert!(matches!(query_list(&view, Some(27759), None), Err(ContractError::Std(_))));
    assert_eq!(ids(&owned, Some(27760), None), Vec::<u64>::new());
}

#[test]
fn next_entry_reads_the_first_entry_past_the_cursor() {
    let mut owned = ledger_with(3);
    put_raw(&mut owned, 9, ("bad".to_string(), 0, 7));
    let view = LedgerView { deps: owned.as_ref() };
    assert_eq!(next_entry(&view, None).unwrap().unwrap().id, 1);
    assert_eq!(next_entry(&view, Some(1)).unwrap().unwrap().description, "task 2");
    assert_eq!(next_entry(&view, Some(3)), Err(ContractError::Corrupt));
    assert_eq!(next_entry(&view, Some(9)), Ok(None));
    assert_eq!(next_entry(&view, Some(u64::MAX)), Ok(None));
}

#[test]
fn scanned_turns_what_storage_gave_into_a_step() {
    assert_eq!(scanned(Ok(None)), Ok(None));
    assert_eq!(
        scanned(Ok(Some((4, ("buy milk".to_string(), 2, 1))))),
        Ok(Some(Entry {
            id: 4,
            description: "buy milk".to_string(),
            status: Status::Done,
            priority: Priority::Low,
        }))
    );
    assert_eq!(scanned(Ok(Some((4, ("x".to_string(), 3, 0))))), Err(ContractError::Corrupt));
    assert_eq!(
        scanned(Err(cosmwasm_std::StdError::generic_err("storage is down"))),
        Err(ContractError::Std(cosmwasm_std::StdError::generic_err("storage is down")))
    );
}

#[test]
fn corrupt_record_fails_the_page_that_reaches_it() {
    let mut owned = ledger_with(3);
    put_raw(&mut owned, 4, ("bad".to_string(), 9, 0));
    put_raw(&mut owned, 5, ("good".to_string(), 2, 3));
    let view = LedgerView { deps: owned.as_ref() };
    assert_eq!(query_list(&view, None, None), Err(ContractError::Corrupt));
    assert_eq!(query_list(&view, Some(3), Some(1)), Err(ContractError::Corrupt));
    // pages that stop short of it, or start past it, are fine
    assert_eq!(ids(&owned, None, Some(3)), vec![1, 2, 3]);
    assert_eq!(ids(&owned, Some(4), None), vec![5]);
}

#[test]
fn unreadable_record_fails_the_page_that_reaches_it() {
    let mut owned = ledger_with(2);
    let key = cw_storage_plus::Map::<u64, (String, u8, u8)>::new("list").key(3);
    owned.storage.set(&key, b"{");
    let view = LedgerView { deps: owned.as_ref() };
    assert!(matches!(query_list(&view, None, None), Err(ContractError::Std(_))));
    assert_eq!(ids(&owned, None, Some(2)), vec![1, 2]);
}
