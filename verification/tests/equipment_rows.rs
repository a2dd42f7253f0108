use backend::models::computer::{ComputerChangeSet, ComputerDbo, NewComputer};
use backend::models::equipment_dbo::{EquipmentDbo, NewEquipmentDbo};
use backend::models::jumppad::{JumpPadDbo, NewJumpPadDbo};
use backend::models::monitor::{MonitorDbo, NewMonitor};

fn equipment_row() -> EquipmentDbo {
    EquipmentDbo {
        id: 41,
        computerid: None,
        jumppadid: None,
        interfaceboxid: None,
        monitorid: Some(5),
        microphonerecorderid: None,
        projectorid: None,
        powerstripid: None,
        extensioncordid: None,
        misc_note: Some("left side".to_string()),
        created_at: 1_000,
        updated_at: 2_000,
        equipmentsetid: 9,
        creator_id: 3,
        last_modified_user: 4,
    }
}

fn monitor_row() -> MonitorDbo {
    MonitorDbo {
        id: 5,
        size: "24in".to_string(),
        brand: "Dell".to_string(),
        has_vga_out_port: true,
        has_dvi_out_port: false,
        has_hdmi_out_port: true,
        has_display_port_out: false,
        created_at: 10,
        updated_at: 20,
    }
}

#[test]
fn a_row_and_its_equipment_record_make_a_monitor() {
    let m = monitor_row().to_model(equipment_row());
    assert_eq!((m.id, m.equipmentid, m.equipmentsetid), (5, 41, 9));
    assert_eq!(m.size, "24in");
    assert_eq!(m.misc_note, Some("left side".to_string()));
    assert!(m.has_vga_out_port && m.has_hdmi_out_port && !m.has_dvi_out_port);
    // The row's own times.
    assert_eq!((m.created_at, m.updated_at), (10, 20));
    // The equipment record's times.
    let c = backend::models::monitor::covert_to_model_from_dbos(monitor_row(), equipment_row());
    assert_eq!((c.created_at, c.updated_at), (1_000, 2_000));
    assert_eq!((c.id, c.equipmentid, c.brand.as_str()), (5, 41, "Dell"));
}

#[test]
fn a_new_monitor_row_keeps_only_its_own_fields() {
    let n = NewMonitor {
        size: "27in".to_string(),
        brand: "LG".to_string(),
        has_vga_out_port: false,
        has_dvi_out_port: true,
        has_hdmi_out_port: false,
        has_display_port_out: true,
        equipmentsetid: 9,
        misc_note: None,
    };
    let d = n.to_dbo();
    assert_eq!((d.size.as_str(), d.brand.as_str()), ("27in", "LG"));
    assert!(d.has_dvi_out_port && d.has_display_port_out && !d.has_vga_out_port);
}

#[test]
fn a_new_computer_row_always_holds_its_login() {
    let n = NewComputer {
        brand: "Dell".to_string(),
        operating_system: "Windows".to_string(),
        quizmachine_version: "5.1".to_string(),
        wifi_capabilities: "ac".to_string(),
        login_username: "quiz".to_string(),
        login_password: "pw".to_string(),
        has_vga_out_port: true,
        has_dvi_out_port: false,
        has_hdmi_out_port: true,
        has_display_port_out: false,
        has_usb_port: true,
        equipmentsetid: 9,
        misc_note: Some("spare".to_string()),
    };
    let d = n.to_dbo();
    assert_eq!(d.login_username, Some("quiz".to_string()));
    assert_eq!(d.login_password, Some("pw".to_string()));
    assert_eq!(d.quizmachine_version, "5.1");
}

#[test]
fn a_computer_change_splits_between_row_and_equipment_record() {
    let ch = ComputerChangeSet {
        equipmentsetid: Some(12),
        brand: Some("HP".to_string()),
        operating_system: None,
        quizmachine_version: None,
        wifi_capabilities: None,
        login_username: None,
        login_password: Some("new".to_string()),
        has_vga_out_port: None,
        has_dvi_out_port: Some(true),
        has_hdmi_out_port: None,
        has_display_port_out: None,
        has_usb_port: None,
        misc_note: Some("moved".to_string()),
    };
    let (row, eq) = ch.to_dbos();
    assert_eq!(row.brand, Some("HP".to_string()));
    assert_eq!(row.operating_system, None);
    assert_eq!(row.login_password, Some("new".to_string()));
    assert_eq!(row.has_dvi_out_port, Some(true));
    assert_eq!(eq.equipmentsetid, Some(12));
    assert_eq!(eq.misc_note, Some("moved".to_string()));
}

#[test]
fn a_computer_row_becomes_a_computer() {
    let row = ComputerDbo {
        computerid: 7,
        brand: "Dell".to_string(),
        operating_system: "Linux".to_string(),
        quizmachine_version: "6".to_string(),
        wifi_capabilities: "ax".to_string(),
        login_username: "u".to_string(),
        login_password: "p".to_string(),
        has_vga_out_port: false,
        has_dvi_out_port: false,
        has_hdmi_out_port: true,
        has_display_port_out: true,
        has_usb_port: true,
        created_at: 30,
        updated_at: 40,
    };
    let c = row.to_model(equipment_row());
    assert_eq!((c.computerid, c.equipmentid, c.equipmentsetid), (7, 41, 9));
    assert_eq!((c.created_at, c.updated_at), (30, 40));
    assert_eq!(c.operating_system, "Linux");
}

#[test]
fn a_jump_pad_row_goes_both_ways() {
    let row = JumpPadDbo { jumppadid: 3, color: "red".to_string(), created_at: 5, updated_at: 6 };
    let pad = row.to_model(equipment_row());
    assert_eq!((pad.jumppadid, pad.color.as_str(), pad.equipmentid), (3, "red", 41));
    let back = pad.to_dbo();
    assert_eq!((back.jumppadid, back.color.as_str(), back.created_at, back.updated_at), (3, "red", 5, 6));
    let new_row = NewJumpPadDbo { color: "blue".to_string() };
    let eq = NewEquipmentDbo {
        computerid: None,
        jumppadid: None,
        interfaceboxid: None,
        monitorid: None,
        microphonerecorderid: None,
        projectorid: None,
        powerstripid: None,
        extensioncordid: None,
        misc_note: Some("n".to_string()),
        equipmentsetid: 2,
        creator_id: 0,
        last_modified_user: 0,
    };
    let n = new_row.to_model(eq);
    assert_eq!((n.color.as_str(), n.equipmentsetid, n.misc_note.as_deref()), ("blue", 2, Some("n")));
    assert_eq!(n.to_dbo().color, "blue");
}
