//! Monitors of an equipment set, and the builder of their records.
use vstd::prelude::*;
use crate::models::equipment_dbo::{EquipmentDbo, EquipmentDboChangeset};
use crate::models::common::copy_text;
use crate::gameevent::event::{msg_if, texts};
use crate::models::common::push_missing;

verus! {

/// Collects a monitor's fields and checks that the required ones are given.
pub struct MonitorBuilder {
    pub size: Option<String>,
    pub brand: Option<String>,
    pub has_vga_out_port: Option<bool>,
    pub has_dvi_out_port: Option<bool>,
    pub has_hdmi_out_port: Option<bool>,
    pub has_display_port_out: Option<bool>,
    pub equipmentsetid: i64,
    pub misc_note: Option<String>,
}

/// A monitor record to insert.
pub struct NewMonitor {
    pub size: String,
    pub brand: String,
    pub has_vga_out_port: bool,
    pub has_dvi_out_port: bool,
    pub has_hdmi_out_port: bool,
    pub has_display_port_out: bool,
    pub equipmentsetid: i64,
    pub misc_note: Option<String>,
}

/// The missing required fields, in the order they are checked.
pub open spec fn monitor_missing(b: MonitorBuilder) -> Seq<Seq<char>> {
    msg_if(b.size is None, "size is required"@)
        + msg_if(b.brand is None, "brand is required"@)
        + msg_if(b.has_vga_out_port is None, "has_vga_out_port is required"@)
        + msg_if(b.has_dvi_out_port is None, "has_dvi_out_port is required"@)
        + msg_if(b.has_hdmi_out_port is None, "has_hdmi_out_port is required"@)
        + msg_if(b.has_display_port_out is None, "has_display_port_out is required"@)
}

/// Whether `n` is the record that the complete builder `b` gives.
pub open spec fn monitor_record(b: MonitorBuilder, n: NewMonitor) -> bool {
    &&& b.size == Some(n.size)
    &&& b.brand == Some(n.brand)
    &&& b.has_vga_out_port == Some(n.has_vga_out_port)
    &&& b.has_dvi_out_port == Some(n.has_dvi_out_port)
    &&& b.has_hdmi_out_port == Some(n.has_hdmi_out_port)
    &&& b.has_display_port_out == Some(n.has_display_port_out)
    &&& n.equipmentsetid == b.equipmentsetid
    &&& n.misc_note == b.misc_note
}

impl MonitorBuilder {
    /// A builder for equipment set `equipmentsetid` with nothing else given.
    pub fn new(equipmentsetid: i64) -> (r: Self)
        ensures
            r.size is None,
            r.brand is None,
            r.has_vga_out_port is None,
            r.has_dvi_out_port is None,
            r.has_hdmi_out_port is None,
            r.has_display_port_out is None,
            r.equipmentsetid == equipmentsetid,
            r.misc_note is None,
    {
        MonitorBuilder {
            size: None,
            brand: None,
            has_vga_out_port: None,
            has_dvi_out_port: None,
            has_hdmi_out_port: None,
            has_display_port_out: None,
            equipmentsetid: equipmentsetid,
            misc_note: None,
        }
    }

    /// A builder for equipment set `equipmentsetid` with the usual defaults.
    pub fn new_default(equipmentsetid: i64) -> (r: Self)
        ensures
            r.size is None,
            r.brand is None,
            r.has_vga_out_port == Some(false),
            r.has_dvi_out_port == Some(false),
            r.has_hdmi_out_port == Some(false),
            r.has_display_port_out == Some(false),
            r.equipmentsetid == equipmentsetid,
            r.misc_note matches Some(s) && s@ == Seq::<char>::empty(),
    {
        MonitorBuilder {
            size: None,
            brand: None,
            has_vga_out_port: Some(false),
            has_dvi_out_port: Some(false),
            has_hdmi_out_port: Some(false),
            has_display_port_out: Some(false),
            equipmentsetid: equipmentsetid,
            misc_note: Some(String::new()),
        }
    }

    pub fn set_size(self, size: Option<String>) -> (r: Self)
        ensures
            r == (MonitorBuilder { size: size, ..self }),
    {
        MonitorBuilder { size: size, ..self }
    }

    pub fn set_brand(self, brand: Option<String>) -> (r: Self)
        ensures
            r == (MonitorBuilder { brand: brand, ..self }),
    {
        MonitorBuilder { brand: brand, ..self }
    }

    pub fn set_has_vga_out_port(self, has_vga_out_port: Option<bool>) -> (r: Self)
        ensures
            r == (MonitorBuilder { has_vga_out_port: has_vga_out_port, ..self }),
    {
        MonitorBuilder { has_vga_out_port: has_vga_out_port, ..self }
    }

    pub fn set_has_dvi_out_port(self, has_dvi_out_port: Option<bool>) -> (r: Self)
        ensures
            r == (MonitorBuilder { has_dvi_out_port: has_dvi_out_port, ..self }),
    {
        MonitorBuilder { has_dvi_out_port: has_dvi_out_port, ..self }
    }

    pub fn set_has_hdmi_out_port(self, has_hdmi_out_port: Option<bool>) -> (r: Self)
        ensures
            r == (MonitorBuilder { has_hdmi_out_port: has_hdmi_out_port, ..self }),
    {
        MonitorBuilder { has_hdmi_out_port: has_hdmi_out_port, ..self }
    }

    pub fn set_has_display_port_out(self, has_display_port_out: Option<bool>) -> (r: Self)
        ensures
            r == (MonitorBuilder { has_display_port_out: has_display_port_out, ..self }),
    {
        MonitorBuilder { has_display_port_out: has_display_port_out, ..self }
    }

    pub fn set_equipmentsetid(self, equipmentsetid: i64) -> (r: Self)
        ensures
            r == (MonitorBuilder { equipmentsetid: equipmentsetid, ..self }),
    {
        MonitorBuilder { equipmentsetid: equipmentsetid, ..self }
    }

    pub fn set_misc_note(self, misc_note: Option<String>) -> (r: Self)
        ensures
            r == (MonitorBuilder { misc_note: misc_note, ..self }),
    {
        MonitorBuilder { misc_note: misc_note, ..self }
    }

    /// `Ok` when every required field is given, else a message for each one missing.
    fn validate(&self) -> (r: Result<(), Vec<String>>)
        ensures
            r is Ok <==> monitor_missing(*self).len() == 0,
            r matches Err(v) ==> texts(v@) == monitor_missing(*self),
    {
        let mut errors: Vec<String> = Vec::new();
        push_missing(&mut errors, self.size.is_none(), "size is required");
        push_missing(&mut errors, self.brand.is_none(), "brand is required");
        push_missing(&mut errors, self.has_vga_out_port.is_none(), "has_vga_out_port is required");
        push_missing(&mut errors, self.has_dvi_out_port.is_none(), "has_dvi_out_port is required");
        push_missing(&mut errors, self.has_hdmi_out_port.is_none(), "has_hdmi_out_port is required");
        push_missing(&mut errors, self.has_display_port_out.is_none(), "has_display_port_out is required");
        proof {
            assert(texts(errors@) =~= monitor_missing(*self));
        }
        if errors.len() > 0 {
            Err(errors)
        } else {
            Ok(())
        }
    }

    /// The record, or a message for each required field missing.
    pub fn build(self) -> (r: Result<NewMonitor, Vec<String>>)
        ensures
            r is Ok <==> monitor_missing(self).len() == 0,
            r matches Ok(n) ==> monitor_record(self, n),
            r matches Err(v) ==> texts(v@) == monitor_missing(self),
    {
        match self.validate() {
            Err(e) => Err(e),
            Ok(()) => {
                let size = match self.size { Some(x) => x, None => String::new() };
                let brand = match self.brand { Some(x) => x, None => String::new() };
                let has_vga_out_port = match self.has_vga_out_port { Some(x) => x, None => false };
                let has_dvi_out_port = match self.has_dvi_out_port { Some(x) => x, None => false };
                let has_hdmi_out_port = match self.has_hdmi_out_port { Some(x) => x, None => false };
                let has_display_port_out = match self.has_display_port_out { Some(x) => x, None => false };
                Ok(NewMonitor {
                    size: size,
                    brand: brand,
                    has_vga_out_port: has_vga_out_port,
                    has_dvi_out_port: has_dvi_out_port,
                    has_hdmi_out_port: has_hdmi_out_port,
                    has_display_port_out: has_display_port_out,
                    equipmentsetid: self.equipmentsetid,
                    misc_note: self.misc_note,
                })
            },
        }
    }
}

/// A stored monitor row: its own id and fields, and when it was written (microseconds).
pub struct MonitorDbo {
    pub id: i64,
    pub size: String,
    pub brand: String,
    pub has_vga_out_port: bool,
    pub has_dvi_out_port: bool,
    pub has_hdmi_out_port: bool,
    pub has_display_port_out: bool,
    pub created_at: i64,
    pub updated_at: i64,
}

/// A monitor together with the fields of its equipment record.
pub struct Monitor {
    pub id: i64,
    pub size: String,
    pub brand: String,
    pub has_vga_out_port: bool,
    pub has_dvi_out_port: bool,
    pub has_hdmi_out_port: bool,
    pub has_display_port_out: bool,
    pub equipmentid: i64,
    pub equipmentsetid: i64,
    pub misc_note: Option<String>,
    pub created_at: i64,
    pub updated_at: i64,
}

/// The monitor row to insert.
pub struct NewMonitorDbo {
    pub size: String,
    pub brand: String,
    pub has_vga_out_port: bool,
    pub has_dvi_out_port: bool,
    pub has_hdmi_out_port: bool,
    pub has_display_port_out: bool,
}

/// The changes to a stored monitor row: `None` leaves a field as it is.
pub struct MonitorDboChangeset {
    pub size: Option<String>,
    pub brand: Option<String>,
    pub has_vga_out_port: Option<bool>,
    pub has_dvi_out_port: Option<bool>,
    pub has_hdmi_out_port: Option<bool>,
    pub has_display_port_out: Option<bool>,
}

/// The changes to a monitor and its equipment record: `None` leaves a field as it is.
pub struct MonitorChangeSet {
    pub size: Option<String>,
    pub brand: Option<String>,
    pub has_vga_out_port: Option<bool>,
    pub has_dvi_out_port: Option<bool>,
    pub has_hdmi_out_port: Option<bool>,
    pub has_display_port_out: Option<bool>,
    pub equipmentsetid: Option<i64>,
    pub misc_note: Option<String>,
}

impl MonitorDbo {
    /// The monitor that this row and its equipment record describe; the times are the row's own.
    pub fn to_model(&self, equipment_dbo: EquipmentDbo) -> (r: Monitor)
        ensures
            r.id == self.id,
            r.size == self.size,
            r.brand == self.brand,
            r.has_vga_out_port == self.has_vga_out_port,
            r.has_dvi_out_port == self.has_dvi_out_port,
            r.has_hdmi_out_port == self.has_hdmi_out_port,
            r.has_display_port_out == self.has_display_port_out,
            r.equipmentid == equipment_dbo.id,
            r.equipmentsetid == equipment_dbo.equipmentsetid,
            r.misc_note == equipment_dbo.misc_note,
            r.created_at == self.created_at,
            r.updated_at == self.updated_at,
    {
        Monitor {
            id: self.id,
            size: self.size.clone(),
            brand: self.brand.clone(),
            has_vga_out_port: self.has_vga_out_port,
            has_dvi_out_port: self.has_dvi_out_port,
            has_hdmi_out_port: self.has_hdmi_out_port,
            has_display_port_out: self.has_display_port_out,
            equipmentid: equipment_dbo.id,
            equipmentsetid: equipment_dbo.equipmentsetid,
            misc_note: equipment_dbo.misc_note,
            created_at: self.created_at,
            updated_at: self.updated_at,
        }
    }
}

impl NewMonitor {
    /// The monitor row to insert for this record: its own fields, without the equipment record's.
    pub fn to_dbo(&self) -> (r: NewMonitorDbo)
        ensures
            r.size == self.size,
            r.brand == self.brand,
            r.has_vga_out_port == self.has_vga_out_port,
            r.has_dvi_out_port == self.has_dvi_out_port,
            r.has_hdmi_out_port == self.has_hdmi_out_port,
            r.has_display_port_out == self.has_display_port_out,
    {
        NewMonitorDbo {
            size: self.size.clone(),
            brand: self.brand.clone(),
            has_vga_out_port: self.has_vga_out_port,
            has_dvi_out_port: self.has_dvi_out_port,
            has_hdmi_out_port: self.has_hdmi_out_port,
            has_display_port_out: self.has_display_port_out,
        }
    }
}

impl MonitorChangeSet {
    /// The changes split in two: those to the monitor row, and those to its equipment record.
    pub fn to_dbos(&self) -> (r: (MonitorDboChangeset, EquipmentDboChangeset))
        ensures
            r.0.size == self.size,
            r.0.brand == self.brand,
            r.0.has_vga_out_port == self.has_vga_out_port,
            r.0.has_dvi_out_port == self.has_dvi_out_port,
            r.0.has_hdmi_out_port == self.has_hdmi_out_port,
            r.0.has_display_port_out == self.has_display_port_out,
            r.1.misc_note == self.misc_note,
            r.1.equipmentsetid == self.equipmentsetid,
    {
        (
            MonitorDboChangeset {
                size: copy_text(&self.size),
                brand: copy_text(&self.brand),
                has_vga_out_port: self.has_vga_out_port,
                has_dvi_out_port: self.has_dvi_out_port,
                has_hdmi_out_port: self.has_hdmi_out_port,
                has_display_port_out: self.has_display_port_out,
            },
            EquipmentDboChangeset { misc_note: copy_text(&self.misc_note), equipmentsetid: self.equipmentsetid },
        )
    }
}

/// The monitor that a row and its equipment record describe; the times are the equipment record's.
pub fn covert_to_model_from_dbos(monitor_dbo: MonitorDbo, equipment_dbo: EquipmentDbo) -> (r: Monitor)
    ensures
        r.id == monitor_dbo.id,
        r.size == monitor_dbo.size,
        r.brand == monitor_dbo.brand,
        r.has_vga_out_port == monitor_dbo.has_vga_out_port,
        r.has_dvi_out_port == monitor_dbo.has_dvi_out_port,
        r.has_hdmi_out_port == monitor_dbo.has_hdmi_out_port,
        r.has_display_port_out == monitor_dbo.has_display_port_out,
        r.equipmentid == equipment_dbo.id,
        r.equipmentsetid == equipment_dbo.equipmentsetid,
        r.misc_note == equipment_dbo.misc_note,
        r.created_at == equipment_dbo.created_at,
        r.updated_at == equipment_dbo.updated_at,
{
    Monitor {
        id: monitor_dbo.id,
        size: monitor_dbo.size,
        brand: monitor_dbo.brand,
        has_vga_out_port: monitor_dbo.has_vga_out_port,
        has_dvi_out_port: monitor_dbo.has_dvi_out_port,
        has_hdmi_out_port: monitor_dbo.has_hdmi_out_port,
        has_display_port_out: monitor_dbo.has_display_port_out,
        equipmentid: equipment_dbo.id,
        equipmentsetid: equipment_dbo.equipmentsetid,
        misc_note: equipment_dbo.misc_note,
        created_at: equipment_dbo.created_at,
        updated_at: equipment_dbo.updated_at,
    }
}

} // verus!
