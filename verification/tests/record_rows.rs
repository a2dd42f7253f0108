use backend::models::division::{division_rows, Division};
use backend::models::division_session::{session_rows, DivisionSession};
use backend::models::equipment::{gear_of_record, missing_gear_message, no_gear_message, Equipment, GearKind};
use backend::models::equipment_dbo::{gear_rows, gear_type_of, EquipmentDbo};
use backend::models::jumppad::JumpPadDbo;
use backend::models::pool_bracket::{pool_bracket_rows, PoolBracket};

const USER: u128 = 0x67e5504410b1426f9247bb680e5fe0c8;

fn names(pairs: &[(u128, &str)]) -> Vec<(u128, String)> {
    pairs.iter().map(|(k, v)| (*k, v.to_string())).collect()
}

fn division(did: u128, dname: &str, is_public: bool, user: u128) -> Division {
    Division {
        did,
        tid: 2,
        dname: dname.to_string(),
        breadcrumb: "sr".to_string(),
        is_public,
        shortinfo: "Ages 15+".to_string(),
        created_at: 10,
        updated_at: 20,
        last_modified_user: user,
    }
}

#[test]
fn division_rows_name_the_last_modifier() {
    let rows = division_rows(&vec![division(1, "Senior", true, USER), division(3, "Junior", false, 7)], &names(&[(7, "Pat Lee")]));
    assert_eq!(rows.len(), 2);
    assert_eq!(rows[0].last_modified_user_name, "67e55044-10b1-426f-9247-bb680e5fe0c8");
    assert_eq!((rows[0].dname.as_str(), rows[0].breadcrumb.as_str(), rows[0].is_public), ("Senior", "sr", true));
    assert_eq!((rows[1].did, rows[1].last_modified_user_name.as_str(), rows[1].is_public), (3, "Pat Lee", false));
    assert_eq!((rows[1].tid, rows[1].created_at, rows[1].updated_at), (2, 10, 20));
}

#[test]
fn session_rows_name_their_division() {
    let s = |id: u128, did: u128, name: &str| DivisionSession {
        division_session_id: id,
        did,
        created_date: 1,
        creator_userid: USER,
        last_modified_date: 2,
        last_modified_userid: 9,
        name: name.to_string(),
    };
    let rows = session_rows(
        &vec![s(1, 100, "Morning"), s(2, 200, "Evening")],
        &names(&[(100, "Senior"), (100, "Senior A")]),
        &names(&[(9, "Sam Roe")]),
    );
    // The name listed last for an id wins.
    assert_eq!(rows[0].division_name, "Senior A");
    assert_eq!(rows[1].division_name, "");
    assert_eq!((rows[1].name.as_str(), rows[1].last_modified_user_name.as_str()), ("Evening", "Sam Roe"));
}

#[test]
fn bracket_rows_name_their_session_and_division() {
    let b = PoolBracket {
        pool_bracket_id: 5,
        division_session_id: 50,
        type_: "pool".to_string(),
        created_date: 3,
        creator_userid: 1,
        last_modified_date: 4,
        last_modified_userid: USER,
        name: "Pool A".to_string(),
    };
    let rows = pool_bracket_rows(&vec![b], 100, "Senior", &names(&[(50, "Morning")]), &vec![]);
    assert_eq!(rows.len(), 1);
    assert_eq!((rows[0].session_name.as_str(), rows[0].did, rows[0].division_name.as_str()), ("Morning", 100, "Senior"));
    assert_eq!((rows[0].name.as_str(), rows[0].type_.as_str()), ("Pool A", "pool"));
    assert_eq!(rows[0].last_modified_user_name, "67e55044-10b1-426f-9247-bb680e5fe0c8");
}

fn equipment(id: i64, jumppad: Option<i64>, monitor: Option<i64>) -> EquipmentDbo {
    EquipmentDbo {
        id,
        computerid: None,
        jumppadid: jumppad,
        interfaceboxid: None,
        monitorid: monitor,
        microphonerecorderid: None,
        projectorid: None,
        powerstripid: None,
        extensioncordid: None,
        misc_note: None,
        created_at: 1,
        updated_at: 2,
        equipmentsetid: 8,
        creator_id: 4,
        last_modified_user: 5,
    }
}

#[test]
fn gear_rows_carry_kind_set_names_and_detail() {
    assert_eq!(gear_type_of(&equipment(1, None, None)), "Unknown");
    assert_eq!(gear_type_of(&equipment(1, Some(2), Some(3))), "Jump Pad");
    let pad = JumpPadDbo { jumppadid: 2, color: "red".to_string(), created_at: 1, updated_at: 2 }.to_model(equipment(1, Some(2), None));
    let rows = gear_rows(
        vec![equipment(1, Some(2), None), equipment(6, None, Some(3))],
        vec![Some(Equipment::JumpPad(pad)), None],
        &vec![(8, "Set 8".to_string())],
        &names(&[(4, "Ann"), (5, "Bo")]),
    );
    assert_eq!(rows.len(), 2);
    assert_eq!((rows[0].gear_type.as_str(), rows[0].set_name.as_str()), ("Jump Pad", "Set 8"));
    assert!(matches!(&rows[0].detail, Some(Equipment::JumpPad(p)) if p.color == "red"));
    assert_eq!((rows[1].gear_type.as_str(), rows[1].creator_name.as_str(), rows[1].last_modified_user_name.as_str()), ("Monitor", "Ann", "Bo"));
    assert!(rows[1].detail.is_none());
}

#[test]
fn a_record_is_the_first_kind_it_names() {
    assert_eq!(gear_of_record(&equipment(1, None, None)), None);
    assert_eq!(gear_of_record(&equipment(1, Some(2), Some(3))), Some((GearKind::JumpPad, 2)));
    assert_eq!(gear_of_record(&equipment(1, None, Some(3))), Some((GearKind::Monitor, 3)));
    assert_eq!(missing_gear_message(GearKind::MicrophoneRecorder, 42), "Error: MicrophoneRecorder with ID 42 does not exist");
    assert_eq!(no_gear_message(-7), "Error: Could not find Equipment with ID -7");
}
