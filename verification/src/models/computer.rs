//! Computers of an equipment set, and the builder of their records.
use vstd::prelude::*;
use crate::models::equipment_dbo::{EquipmentDbo, EquipmentDboChangeset};
use crate::models::common::copy_text;
use crate::gameevent::event::{msg_if, texts};
use crate::models::common::push_missing;

verus! {

/// Collects a computer's fields and checks that the required ones are given.
pub struct ComputerBuilder {
    pub brand: Option<String>,
    pub operating_system: Option<String>,
    pub quizmachine_version: Option<String>,
    pub wifi_capabilities: Option<String>,
    pub login_username: Option<String>,
    pub login_password: Option<String>,
    pub has_vga_out_port: Option<bool>,
    pub has_dvi_out_port: Option<bool>,
    pub has_hdmi_out_port: Option<bool>,
    pub has_display_port_out: Option<bool>,
    pub has_usb_port: Option<bool>,
    pub equipmentsetid: i64,
    pub misc_note: Option<String>,
}

/// A computer record to insert.
pub struct NewComputer {
    pub brand: String,
    pub operating_system: String,
    pub quizmachine_version: String,
    pub wifi_capabilities: String,
    pub login_username: String,
    pub login_password: String,
    pub has_vga_out_port: bool,
    pub has_dvi_out_port: bool,
    pub has_hdmi_out_port: bool,
    pub has_display_port_out: bool,
    pub has_usb_port: bool,
    pub equipmentsetid: i64,
    pub misc_note: Option<String>,
}

/// The missing required fields, in the order they are checked.
pub open spec fn computer_missing(b: ComputerBuilder) -> Seq<Seq<char>> {
    msg_if(b.brand is None, "brand is required"@)
        + msg_if(b.operating_system is None, "operating_system is required"@)
        + msg_if(b.quizmachine_version is None, "quizmachine_version is required"@)
        + msg_if(b.wifi_capabilities is None, "wifi_capabilities is required"@)
        + msg_if(b.login_username is None, "login_username is required"@)
        + msg_if(b.login_password is None, "login_password is required"@)
        + msg_if(b.has_vga_out_port is None, "has_vga_out_port is required"@)
        + msg_if(b.has_dvi_out_port is None, "has_dvi_out_port is required"@)
        + msg_if(b.has_hdmi_out_port is None, "has_hdmi_out_port is required"@)
        + msg_if(b.has_display_port_out is None, "has_display_port_out is required"@)
        + msg_if(b.has_usb_port is None, "has_usb_port is required"@)
}

/// Whether `n` is the record that the complete builder `b` gives.
pub open spec fn computer_record(b: ComputerBuilder, n: NewComputer) -> bool {
    &&& b.brand == Some(n.brand)
    &&& b.operating_system == Some(n.operating_system)
    &&& b.quizmachine_version == Some(n.quizmachine_version)
    &&& b.wifi_capabilities == Some(n.wifi_capabilities)
    &&& b.login_username == Some(n.login_username)
    &&& b.login_password == Some(n.login_password)
    &&& b.has_vga_out_port == Some(n.has_vga_out_port)
    &&& b.has_dvi_out_port == Some(n.has_dvi_out_port)
    &&& b.has_hdmi_out_port == Some(n.has_hdmi_out_port)
    &&& b.has_display_port_out == Some(n.has_display_port_out)
    &&& b.has_usb_port == Some(n.has_usb_port)
    &&& n.equipmentsetid == b.equipmentsetid
    &&& n.misc_note == b.misc_note
}

impl ComputerBuilder {
    /// A builder for equipment set `equipmentsetid` with nothing else given.
    pub fn new(equipmentsetid: i64) -> (r: Self)
        ensures
            r.brand is None,
            r.operating_system is None,
            r.quizmachine_version is None,
            r.wifi_capabilities is None,
            r.login_username is None,
            r.login_password is None,
            r.has_vga_out_port is None,
            r.has_dvi_out_port is None,
            r.has_hdmi_out_port is None,
            r.has_display_port_out is None,
            r.has_usb_port is None,
            r.equipmentsetid == equipmentsetid,
            r.misc_note is None,
    {
        ComputerBuilder {
            brand: None,
            operating_system: None,
            quizmachine_version: None,
            wifi_capabilities: None,
            login_username: None,
            login_password: None,
            has_vga_out_port: None,
            has_dvi_out_port: None,
            has_hdmi_out_port: None,
            has_display_port_out: None,
            has_usb_port: None,
            equipmentsetid: equipmentsetid,
            misc_note: None,
        }
    }

    /// A builder for equipment set `equipmentsetid` with the usual defaults.
    pub fn new_default(equipmentsetid: i64) -> (r: Self)
        ensures
            r.brand matches Some(s) && s@ == Seq::<char>::empty(),
            r.operating_system matches Some(s) && s@ == Seq::<char>::empty(),
            r.quizmachine_version matches Some(s) && s@ == Seq::<char>::empty(),
            r.wifi_capabilities matches Some(s) && s@ == Seq::<char>::empty(),
            r.login_username matches Some(s) && s@ == Seq::<char>::empty(),
            r.login_password matches Some(s) && s@ == Seq::<char>::empty(),
            r.has_vga_out_port == Some(false),
            r.has_dvi_out_port == Some(false),
            r.has_hdmi_out_port == Some(false),
            r.has_display_port_out == Some(false),
            r.has_usb_port == Some(false),
            r.equipmentsetid == equipmentsetid,
            r.misc_note is None,
    {
        ComputerBuilder {
            brand: Some(String::new()),
            operating_system: Some(String::new()),
            quizmachine_version: Some(String::new()),
            wifi_capabilities: Some(String::new()),
            login_username: Some(String::new()),
            login_password: Some(String::new()),
            has_vga_out_port: Some(false),
            has_dvi_out_port: Some(false),
            has_hdmi_out_port: Some(false),
            has_display_port_out: Some(false),
            has_usb_port: Some(false),
            equipmentsetid: equipmentsetid,
            misc_note: None,
        }
    }

    pub fn set_brand(self, brand: Option<String>) -> (r: Self)
        ensures
            r == (ComputerBuilder { brand: brand, ..self }),
    {
        ComputerBuilder { brand: brand, ..self }
    }

    pub fn set_operating_system(self, operating_system: Option<String>) -> (r: Self)
        ensures
            r == (ComputerBuilder { operating_system: operating_system, ..self }),
    {
        ComputerBuilder { operating_system: operating_system, ..self }
    }

    pub fn set_quizmachine_version(self, quizmachine_version: Option<String>) -> (r: Self)
        ensures
            r == (ComputerBuilder { quizmachine_version: quizmachine_version, ..self }),
    {
        ComputerBuilder { quizmachine_version: quizmachine_version, ..self }
    }

    pub fn set_wifi_capabilities(self, wifi_capabilities: Option<String>) -> (r: Self)
        ensures
            r == (ComputerBuilder { wifi_capabilities: wifi_capabilities, ..self }),
    {
        ComputerBuilder { wifi_capabilities: wifi_capabilities, ..self }
    }

    pub fn set_login_username(self, login_username: Option<String>) -> (r: Self)
        ensures
            r == (ComputerBuilder { login_username: login_username, ..self }),
    {
        ComputerBuilder { login_username: login_username, ..self }
    }

    pub fn set_login_password(self, login_password: Option<String>) -> (r: Self)
        ensures
            r == (ComputerBuilder { login_password: login_password, ..self }),
    {
        ComputerBuilder { login_password: login_password, ..self }
    }

    pub fn set_has_vga_out_port(self, has_vga_out_port: Option<bool>) -> (r: Self)
        ensures
            r == (ComputerBuilder { has_vga_out_port: has_vga_out_port, ..self }),
    {
        ComputerBuilder { has_vga_out_port: has_vga_out_port, ..self }
    }

    pub fn set_has_dvi_out_port(self, has_dvi_out_port: Option<bool>) -> (r: Self)
        ensures
            r == (ComputerBuilder { has_dvi_out_port: has_dvi_out_port, ..self }),
    {
        ComputerBuilder { has_dvi_out_port: has_dvi_out_port, ..self }
    }

    pub fn set_has_hdmi_out_port(self, has_hdmi_out_port: Option<bool>) -> (r: Self)
        ensures
            r == (ComputerBuilder { has_hdmi_out_port: has_hdmi_out_port, ..self }),
    {
        ComputerBuilder { has_hdmi_out_port: has_hdmi_out_port, ..self }
    }

    pub fn set_has_display_port_out(self, has_display_port_out: Option<bool>) -> (r: Self)
        ensures
            r == (ComputerBuilder { has_display_port_out: has_display_port_out, ..self }),
    {
        ComputerBuilder { has_display_port_out: has_display_port_out, ..self }
    }

    pub fn set_has_usb_port(self, has_usb_port: Option<bool>) -> (r: Self)
        ensures
            r == (ComputerBuilder { has_usb_port: has_usb_port, ..self }),
    {
        ComputerBuilder { has_usb_port: has_usb_port, ..self }
    }

    pub fn set_equipmentsetid(self, equipmentsetid: i64) -> (r: Self)
        ensures
            r == (ComputerBuilder { equipmentsetid: equipmentsetid, ..self }),
    {
        ComputerBuilder { equipmentsetid: equipmentsetid, ..self }
    }

    pub fn set_misc_note(self, misc_note: Option<String>) -> (r: Self)
        ensures
            r == (ComputerBuilder { misc_note: misc_note, ..self }),
    {
        ComputerBuilder { misc_note: misc_note, ..self }
    }

    /// `Ok` when every required field is given, else a message for each one missing.
    #[verifier::rlimit(80)]
    fn validate(&self) -> (r: Result<(), Vec<String>>)
        ensures
            r is Ok <==> computer_missing(*self).len() == 0,
            r matches Err(v) ==> texts(v@) == computer_missing(*self),
    {
        let mut errors: Vec<String> = Vec::new();
        push_missing(&mut errors, self.brand.is_none(), "brand is required");
        push_missing(&mut errors, self.operating_system.is_none(), "operating_system is required");
        push_missing(&mut errors, self.quizmachine_version.is_none(), "quizmachine_version is required");
        push_missing(&mut errors, self.wifi_capabilities.is_none(), "wifi_capabilities is required");
        push_missing(&mut errors, self.login_username.is_none(), "login_username is required");
        push_missing(&mut errors, self.login_password.is_none(), "login_password is required");
        push_missing(&mut errors, self.has_vga_out_port.is_none(), "has_vga_out_port is required");
        push_missing(&mut errors, self.has_dvi_out_port.is_none(), "has_dvi_out_port is required");
        push_missing(&mut errors, self.has_hdmi_out_port.is_none(), "has_hdmi_out_port is required");
        push_missing(&mut errors, self.has_display_port_out.is_none(), "has_display_port_out is required");
        push_missing(&mut errors, self.has_usb_port.is_none(), "has_usb_port is required");
        proof {
            assert(texts(errors@) =~= computer_missing(*self));
        }
        if errors.len() > 0 {
            Err(errors)
        } else {
            Ok(())
        }
    }

    /// The record, or a message for each required field missing.
    pub fn build(self) -> (r: Result<NewComputer, Vec<String>>)
        ensures
            r is Ok <==> computer_missing(self).len() == 0,
            r matches Ok(n) ==> computer_record(self, n),
            r matches Err(v) ==> texts(v@) == computer_missing(self),
    {
        match self.validate() {
            Err(e) => Err(e),
            Ok(()) => {
                let brand = match self.brand { Some(x) => x, None => String::new() };
                let operating_system = match self.operating_system { Some(x) => x, None => String::new() };
                let quizmachine_version = match self.quizmachine_version { Some(x) => x, None => String::new() };
                let wifi_capabilities = match self.wifi_capabilities { Some(x) => x, None => String::new() };
                let login_username = match self.login_username { Some(x) => x, None => String::new() };
                let login_password = match self.login_password { Some(x) => x, None => String::new() };
                let has_vga_out_port = match self.has_vga_out_port { Some(x) => x, None => false };
                let has_dvi_out_port = match self.has_dvi_out_port { Some(x) => x, None => false };
                let has_hdmi_out_port = match self.has_hdmi_out_port { Some(x) => x, None => false };
                let has_display_port_out = match self.has_display_port_out { Some(x) => x, None => false };
                let has_usb_port = match self.has_usb_port { Some(x) => x, None => false };
                Ok(NewComputer {
                    brand: brand,
                    operating_system: operating_system,
                    quizmachine_version: quizmachine_version,
                    wifi_capabilities: wifi_capabilities,
                    login_username: login_username,
                    login_password: login_password,
                    has_vga_out_port: has_vga_out_port,
                    has_dvi_out_port: has_dvi_out_port,
                    has_hdmi_out_port: has_hdmi_out_port,
                    has_display_port_out: has_display_port_out,
                    has_usb_port: has_usb_port,
                    equipmentsetid: self.equipmentsetid,
                    misc_note: self.misc_note,
                })
            },
        }
    }
}

/// A stored computer row: its own id and fields, and when it was written (microseconds).
pub struct ComputerDbo {
    pub computerid: i64,
    pub brand: String,
    pub operating_system: String,
    pub quizmachine_version: String,
    pub wifi_capabilities: String,
    pub login_username: String,
    pub login_password: String,
    pub has_vga_out_port: bool,
    pub has_dvi_out_port: bool,
    pub has_hdmi_out_port: bool,
    pub has_display_port_out: bool,
    pub has_usb_port: bool,
    pub created_at: i64,
    pub updated_at: i64,
}

/// A computer together with the fields of its equipment record.
pub struct Computer {
    pub equipmentid: i64,
    pub computerid: i64,
    pub equipmentsetid: i64,
    pub brand: String,
    pub operating_system: String,
    pub quizmachine_version: String,
    pub wifi_capabilities: String,
    pub login_username: String,
    pub login_password: String,
    pub has_vga_out_port: bool,
    pub has_dvi_out_port: bool,
    pub has_hdmi_out_port: bool,
    pub has_display_port_out: bool,
    pub has_usb_port: bool,
    pub misc_note: Option<String>,
    pub created_at: i64,
    pub updated_at: i64,
}

/// The computer row to insert.
pub struct NewComputerDbo {
    pub brand: String,
    pub operating_system: String,
    pub quizmachine_version: String,
    pub wifi_capabilities: String,
    pub login_username: Option<String>,
    pub login_password: Option<String>,
    pub has_vga_out_port: bool,
    pub has_dvi_out_port: bool,
    pub has_hdmi_out_port: bool,
    pub has_display_port_out: bool,
    pub has_usb_port: bool,
}

/// The changes to a stored computer row: `None` leaves a field as it is.
pub struct ComputerDboChangeset {
    pub brand: Option<String>,
    pub operating_system: Option<String>,
    pub quizmachine_version: Option<String>,
    pub wifi_capabilities: Option<String>,
    pub login_username: Option<String>,
    pub login_password: Option<String>,
    pub has_vga_out_port: Option<bool>,
    pub has_dvi_out_port: Option<bool>,
    pub has_hdmi_out_port: Option<bool>,
    pub has_display_port_out: Option<bool>,
    pub has_usb_port: Option<bool>,
}

/// The changes to a computer and its equipment record: `None` leaves a field as it is.
pub struct ComputerChangeSet {
    pub equipmentsetid: Option<i64>,
    pub brand: Option<String>,
    pub operating_system: Option<String>,
    pub quizmachine_version: Option<String>,
    pub wifi_capabilities: Option<String>,
    pub login_username: Option<String>,
    pub login_password: Option<String>,
    pub has_vga_out_port: Option<bool>,
    pub has_dvi_out_port: Option<bool>,
    pub has_hdmi_out_port: Option<bool>,
    pub has_display_port_out: Option<bool>,
    pub has_usb_port: Option<bool>,
    pub misc_note: Option<String>,
}

impl ComputerDbo {
    /// The computer that this row and its equipment record describe; the times are the row's own.
    pub fn to_model(&self, equipment_dbo: EquipmentDbo) -> (r: Computer)
        ensures
            r.equipmentid == equipment_dbo.id,
            r.computerid == self.computerid,
            r.equipmentsetid == equipment_dbo.equipmentsetid,
            r.brand == self.brand,
            r.operating_system == self.operating_system,
            r.quizmachine_version == self.quizmachine_version,
            r.wifi_capabilities == self.wifi_capabilities,
            r.login_username == self.login_username,
            r.login_password == self.login_password,
            r.has_vga_out_port == self.has_vga_out_port,
            r.has_dvi_out_port == self.has_dvi_out_port,
            r.has_hdmi_out_port == self.has_hdmi_out_port,
            r.has_display_port_out == self.has_display_port_out,
            r.has_usb_port == self.has_usb_port,
            r.misc_note == equipment_dbo.misc_note,
            r.created_at == self.created_at,
            r.updated_at == self.updated_at,
    {
        Computer {
            equipmentid: equipment_dbo.id,
            computerid: self.computerid,
            equipmentsetid: equipment_dbo.equipmentsetid,
            brand: self.brand.clone(),
            operating_system: self.operating_system.clone(),
            quizmachine_version: self.quizmachine_version.clone(),
            wifi_capabilities: self.wifi_capabilities.clone(),
            login_username: self.login_username.clone(),
            login_password: self.login_password.clone(),
            has_vga_out_port: self.has_vga_out_port,
            has_dvi_out_port: self.has_dvi_out_port,
            has_hdmi_out_port: self.has_hdmi_out_port,
            has_display_port_out: self.has_display_port_out,
            has_usb_port: self.has_usb_port,
            misc_note: equipment_dbo.misc_note,
            created_at: self.created_at,
            updated_at: self.updated_at,
        }
    }
}

impl NewComputer {
    /// The computer row to insert for this record: its own fields, without the equipment record's.
    pub fn to_dbo(&self) -> (r: NewComputerDbo)
        ensures
            r.brand == self.brand,
            r.operating_system == self.operating_system,
            r.quizmachine_version == self.quizmachine_version,
            r.wifi_capabilities == self.wifi_capabilities,
            r.login_username == Some(self.login_username),
            r.login_password == Some(self.login_password),
            r.has_vga_out_port == self.has_vga_out_port,
            r.has_dvi_out_port == self.has_dvi_out_port,
            r.has_hdmi_out_port == self.has_hdmi_out_port,
            r.has_display_port_out == self.has_display_port_out,
            r.has_usb_port == self.has_usb_port,
    {
        NewComputerDbo {
            brand: self.brand.clone(),
            operating_system: self.operating_system.clone(),
            quizmachine_version: self.quizmachine_version.clone(),
            wifi_capabilities: self.wifi_capabilities.clone(),
            login_username: Some(self.login_username.clone()),
            login_password: Some(self.login_password.clone()),
            has_vga_out_port: self.has_vga_out_port,
            has_dvi_out_port: self.has_dvi_out_port,
            has_hdmi_out_port: self.has_hdmi_out_port,
            has_display_port_out: self.has_display_port_out,
            has_usb_port: self.has_usb_port,
        }
    }
}

impl ComputerChangeSet {
    /// The changes split in two: those to the computer row, and those to its equipment record.
    pub fn to_dbos(&self) -> (r: (ComputerDboChangeset, EquipmentDboChangeset))
        ensures
            r.0.brand == self.brand,
            r.0.operating_system == self.operating_system,
            r.0.quizmachine_version == self.quizmachine_version,
            r.0.wifi_capabilities == self.wifi_capabilities,
            r.0.login_username == self.login_username,
            r.0.login_password == self.login_password,
            r.0.has_vga_out_port == self.has_vga_out_port,
            r.0.has_dvi_out_port == self.has_dvi_out_port,
            r.0.has_hdmi_out_port == self.has_hdmi_out_port,
            r.0.has_display_port_out == self.has_display_port_out,
            r.0.has_usb_port == self.has_usb_port,
            r.1.misc_note == self.misc_note,
            r.1.equipmentsetid == self.equipmentsetid,
    {
        (
            ComputerDboChangeset {
                brand: copy_text(&self.brand),
                operating_system: copy_text(&self.operating_system),
                quizmachine_version: copy_text(&self.quizmachine_version),
                wifi_capabilities: copy_text(&self.wifi_capabilities),
                login_username: copy_text(&self.login_username),
                login_password: copy_text(&self.login_password),
                has_vga_out_port: self.has_vga_out_port,
                has_dvi_out_port: self.has_dvi_out_port,
                has_hdmi_out_port: self.has_hdmi_out_port,
                has_display_port_out: self.has_display_port_out,
                has_usb_port: self.has_usb_port,
            },
            EquipmentDboChangeset { misc_note: copy_text(&self.misc_note), equipmentsetid: self.equipmentsetid },
        )
    }
}

/// The computer that a row and its equipment record describe; the times are the equipment record's.
pub fn covert_to_model_from_dbos(computer_dbo: ComputerDbo, equipment_dbo: EquipmentDbo) -> (r: Computer)
    ensures
        r.equipmentid == equipment_dbo.id,
        r.computerid == computer_dbo.computerid,
        r.equipmentsetid == equipment_dbo.equipmentsetid,
        r.brand == computer_dbo.brand,
        r.operating_system == computer_dbo.operating_system,
        r.quizmachine_version == computer_dbo.quizmachine_version,
        r.wifi_capabilities == computer_dbo.wifi_capabilities,
        r.login_username == computer_dbo.login_username,
        r.login_password == computer_dbo.login_password,
        r.has_vga_out_port == computer_dbo.has_vga_out_port,
        r.has_dvi_out_port == computer_dbo.has_dvi_out_port,
        r.has_hdmi_out_port == computer_dbo.has_hdmi_out_port,
        r.has_display_port_out == computer_dbo.has_display_port_out,
        r.has_usb_port == computer_dbo.has_usb_port,
        r.misc_note == equipment_dbo.misc_note,
        r.created_at == equipment_dbo.created_at,
        r.updated_at == equipment_dbo.updated_at,
{
    Computer {
        equipmentid: equipment_dbo.id,
        computerid: computer_dbo.computerid,
        equipmentsetid: equipment_dbo.equipmentsetid,
        brand: computer_dbo.brand,
        operating_system: computer_dbo.operating_system,
        quizmachine_version: computer_dbo.quizmachine_version,
        wifi_capabilities: computer_dbo.wifi_capabilities,
        login_username: computer_dbo.login_username,
        login_password: computer_dbo.login_password,
        has_vga_out_port: computer_dbo.has_vga_out_port,
        has_dvi_out_port: computer_dbo.has_dvi_out_port,
        has_hdmi_out_port: computer_dbo.has_hdmi_out_port,
        has_display_port_out: computer_dbo.has_display_port_out,
        has_usb_port: computer_dbo.has_usb_port,
        misc_note: equipment_dbo.misc_note,
        created_at: equipment_dbo.created_at,
        updated_at: equipment_dbo.updated_at,
    }
}

} // verus!
