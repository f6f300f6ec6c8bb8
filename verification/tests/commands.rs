use mhxy_store::commands;
use mhxy_store::location::{location, Location, Platform, Root};
use mhxy_store::state::DbState;
use rusqlite::Connection;

#[test]
fn the_first_spelling_wins() {
    assert_eq!(commands::either(Some(1), Some(2)), Some(1));
    assert_eq!(commands::either(None, Some(2)), Some(2));
    assert_eq!(commands::either(Some(1), None), Some(1));
    assert_eq!(commands::either::<i64>(None, None), None);
}

#[test]
fn a_call_must_name_its_account() {
    assert_eq!(commands::required_account(Some(1), Some(2)), Ok(1));
    assert_eq!(commands::required_account(None, Some(2)), Ok(2));
    assert_eq!(commands::required_account(None, None), Err("missing account_id".to_string()));
}

#[test]
fn what_is_left_out_takes_its_default() {
    assert_eq!(commands::count_or_zero(None, None), 0);
    assert_eq!(commands::count_or_zero(Some(5), Some(6)), 5);
    assert_eq!(commands::count_or_zero(None, Some(6)), 6);
    assert_eq!(commands::level_or_zero(None, None), 0);
    assert_eq!(commands::level_or_zero(None, Some(-6)), -6);
    assert_eq!(commands::level_or_zero(Some(1), Some(-6)), 1);
    assert_eq!(commands::text_or_default(None, "2w"), "2w");
    assert_eq!(commands::text_or_default(Some("3w".to_string()), "2w"), "3w");
    assert_eq!(commands::text_or_default(Some("".to_string()), "2w"), "");
}

#[test]
fn calls_without_an_account_are_refused_before_the_store_is_touched() {
    let db = DbState::new("/nonexistent-directory/for/sure/store.db".to_string());
    let missing = Err("missing account_id".to_string());
    assert_eq!(commands::add_spend_log(&db, None, None, 5, "2024-01-01".to_string(), None), missing);
    assert_eq!(commands::get_change_logs(&db, None, None), Err("missing account_id".to_string()));
    assert_eq!(commands::get_cultivations(&db, None, None), Err("missing account_id".to_string()));
    assert_eq!(
        commands::add_cultivation(
            &db,
            None,
            None,
            None,
            "atk".to_string(),
            None,
            None,
            None,
            None,
            None,
            None,
            None
        ),
        Err("missing account_id".to_string())
    );
    assert_eq!(
        commands::add_change_log(
            &db,
            None,
            None,
            "master".to_string(),
            "fire".to_string(),
            None,
            None,
            None,
            None,
            None,
            None,
            None,
            None,
            None,
            None,
            None,
            None,
            None,
            None,
            None,
            None,
            "2024-01-01".to_string()
        ),
        Err("missing account_id".to_string())
    );
    // Without an account the ledger of all accounts is asked for, which here fails
    // at the store that cannot be opened.
    let all = commands::get_spend_logs(&db, None, None, None, None);
    assert!(all.is_err());
    assert_ne!(all, Err("missing account_id".to_string()));
}

#[test]
fn commands_reach_the_store_with_defaults_filled_in() {
    let path = "file:commands_defaults?mode=memory&cache=shared";
    let _keeper = Connection::open(path).unwrap();
    let mut db = DbState::new(path.to_string());
    db.init().unwrap();
    let a = db.add_account("a".to_string(), "s".to_string(), 1, 0).unwrap();
    let id = commands::add_cultivation(
        &db,
        None,
        Some(a),
        None,
        "atk".to_string(),
        None,
        None,
        Some(4),
        None,
        None,
        Some(6),
        Some(7),
    )
    .unwrap();
    let tracks = commands::get_cultivations(&db, Some(a), None).unwrap();
    assert_eq!(tracks.len(), 1);
    assert_eq!(tracks[0].id, id);
    assert_eq!(tracks[0].name, "");
    assert_eq!(tracks[0].mode, "2w");
    assert_eq!(tracks[0].current_exp, 4);
    assert_eq!(tracks[0].current_level, 0);
    assert_eq!(tracks[0].target_level, 6);
    commands::update_cultivation(&db, id, None, "3w".to_string(), None, None, Some(2), Some(9), None, Some(8))
        .unwrap();
    let tracks = commands::get_cultivations(&db, None, Some(a)).unwrap();
    assert_eq!(tracks[0].mode, "3w");
    assert_eq!(tracks[0].current_exp, 0);
    assert_eq!(tracks[0].current_level, 2);
    assert_eq!(tracks[0].target_level, 8);
    commands::add_change_log(
        &db,
        Some(a),
        None,
        "cultivation".to_string(),
        "atk".to_string(),
        None,
        Some(1),
        Some(2),
        Some(3),
        None,
        None,
        None,
        None,
        None,
        Some(10),
        Some(20),
        Some(30),
        None,
        None,
        None,
        None,
        "2024-01-01".to_string(),
    )
    .unwrap();
    let logs = commands::get_change_logs(&db, Some(a), None).unwrap();
    assert_eq!(logs.len(), 1);
    assert_eq!(logs[0].from_level, Some(1));
    assert_eq!(logs[0].to_level, Some(2));
    assert_eq!(logs[0].from_exp, None);
    assert_eq!(logs[0].to_exp, None);
    assert_eq!(logs[0].consumed_exp, 10);
    assert_eq!(logs[0].consumed_money, 20);
    assert_eq!(logs[0].consumed_gang, 0);
    assert_eq!(logs[0].consumed_cultivation_exp, 0);
    commands::add_spend_log(&db, None, Some(a), 5, "2024-01-01".to_string(), None).unwrap();
    assert_eq!(commands::get_spend_logs(&db, Some(a), None, None, None).unwrap().len(), 1);
    assert_eq!(commands::get_spend_logs(&db, None, None, None, None).unwrap().len(), 1);
    assert_eq!(commands::get_spend_logs(&db, None, Some(a + 1), None, None).unwrap().len(), 0);
}

#[test]
fn the_place_of_the_file() {
    assert_eq!(
        location(true, Platform::Windows),
        Location { root: Root::AboveWorkingDirectory, folders: vec![], file: "mhxy.db" }
    );
    assert_eq!(location(true, Platform::Other), location(true, Platform::MacOs));
    assert_eq!(
        location(false, Platform::Windows),
        Location { root: Root::ApplicationData, folders: vec!["mhxy"], file: "mhxy.db" }
    );
    assert_eq!(
        location(false, Platform::MacOs),
        Location {
            root: Root::Home,
            folders: vec!["Library", "Application Support", "mhxy"],
            file: "mhxy.db",
        }
    );
    assert_eq!(
        location(false, Platform::Other),
        Location { root: Root::Home, folders: vec![".local", "share", "mhxy"], file: "mhxy.db" }
    );
}
