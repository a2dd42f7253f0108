//! Projectors of an equipment set, and the builder of their records.
use vstd::prelude::*;
use crate::models::equipment_dbo::{EquipmentDbo, EquipmentDboChangeset};
use crate::models::common::copy_text;
use crate::gameevent::event::{msg_if, texts};
use crate::models::common::push_missing;

verus! {

/// Collects a projector's fields and checks that the required ones are given.
pub struct ProjectorBuilder {
    pub brand: Option<String>,
    pub has_vga_out_port: Option<bool>,
    pub has_dvi_out_port: Option<bool>,
    pub has_hdmi_out_port: Option<bool>,
    pub has_display_port_out: Option<bool>,
    pub equipmentsetid: i64,
    pub misc_note: Option<String>,
}

/// A projector record to insert.
pub struct NewProjector {
    pub brand: String,
    pub has_vga_out_port: bool,
    pub has_dvi_out_port: bool,
    pub has_hdmi_out_port: bool,
    pub has_display_port_out: bool,
    pub equipmentsetid: i64,
    pub misc_note: Option<String>,
}

/// The missing required fields, in the order they are checked.
pub open spec fn projector_missing(b: ProjectorBuilder) -> Seq<Seq<char>> {
    msg_if(b.brand is None, "brand is required"@)
        + msg_if(b.has_vga_out_port is None, "has_vga_out_port is required"@)
        + msg_if(b.has_dvi_out_port is None, "has_dvi_out_port is required"@)
        + msg_if(b.has_hdmi_out_port is None, "has_hdmi_out_port is required"@)
        + msg_if(b.has_display_port_out is None, "has_display_port_out is required"@)
}

/// Whether `n` is the record that the complete builder `b` gives.
pub open spec fn projector_record(b: ProjectorBuilder, n: NewProjector) -> bool {
    &&& b.brand == Some(n.brand)
    &&& b.has_vga_out_port == Some(n.has_vga_out_port)
    &&& b.has_dvi_out_port == Some(n.has_dvi_out_port)
    &&& b.has_hdmi_out_port == Some(n.has_hdmi_out_port)
    &&& b.has_display_port_out == Some(n.has_display_port_out)
    &&& n.equipmentsetid == b.equipmentsetid
    &&& n.misc_note == b.misc_note
}

impl ProjectorBuilder {
    /// A builder for equipment set `equipmentsetid` with nothing else given.
    pub fn new(equipmentsetid: i64) -> (r: Self)
        ensures
            r.brand is None,
            r.has_vga_out_port is None,
            r.has_dvi_out_port is None,
            r.has_hdmi_out_port is None,
            r.has_display_port_out is None,
            r.equipmentsetid == equipmentsetid,
            r.misc_note is None,
    {
        ProjectorBuilder {
            brand: None,
            has_vga_out_port: None,
            has_dvi_out_port: None,
            has_hdmi_out_port: None,
            has_display_port_out: None,
            equipmentsetid: equipmentsetid,
            misc_note: None,
        }
    }

    /// A builder for equipment set `equipmentsetid` with the usual defaults.
    pub fn new_default(equipmentsetid: i64) -> (r: Self)
        ensures
            r.brand is None,
            r.has_vga_out_port == Some(false),
            r.has_dvi_out_port == Some(false),
            r.has_hdmi_out_port == Some(false),
            r.has_display_port_out == Some(false),
            r.equipmentsetid == equipmentsetid,
            r.misc_note matches Some(s) && s@ == Seq::<char>::empty(),
    {
        ProjectorBuilder {
            brand: None,
            has_vga_out_port: Some(false),
            has_dvi_out_port: Some(false),
            has_hdmi_out_port: Some(false),
            has_display_port_out: Some(false),
            equipmentsetid: equipmentsetid,
            misc_note: Some(String::new()),
        }
    }

    pub fn set_brand(self, brand: Option<String>) -> (r: Self)
        ensures
            r == (ProjectorBuilder { brand: brand, ..self }),
    {
        ProjectorBuilder { brand: brand, ..self }
    }

    pub fn set_has_vga_out_port(self, has_vga_out_port: Option<bool>) -> (r: Self)
        ensures
            r == (ProjectorBuilder { has_vga_out_port: has_vga_out_port, ..self }),
    {
        ProjectorBuilder { has_vga_out_port: has_vga_out_port, ..self }
    }

    pub fn set_has_dvi_out_port(self, has_dvi_out_port: Option<bool>) -> (r: Self)
        ensures
            r == (ProjectorBuilder { has_dvi_out_port: has_dvi_out_port, ..self }),
    {
        ProjectorBuilder { has_dvi_out_port: has_dvi_out_port, ..self }
    }

    pub fn set_has_hdmi_out_port(self, has_hdmi_out_port: Option<bool>) -> (r: Self)
        ensures
            r == (ProjectorBuilder { has_hdmi_out_port: has_hdmi_out_port, ..self }),
    {
        ProjectorBuilder { has_hdmi_out_port: has_hdmi_out_port, ..self }
    }

    pub fn set_has_display_port_out(self, has_display_port_out: Option<bool>) -> (r: Self)
        ensures
            r == (ProjectorBuilder { has_display_port_out: has_display_port_out, ..self }),
    {
        ProjectorBuilder { has_display_port_out: has_display_port_out, ..self }
    }

    pub fn set_equipmentsetid(self, equipmentsetid: i64) -> (r: Self)
        ensures
            r == (ProjectorBuilder { equipmentsetid: equipmentsetid, ..self }),
    {
        ProjectorBuilder { equipmentsetid: equipmentsetid, ..self }
    }

    pub fn set_misc_note(self, misc_note: Option<String>) -> (r: Self)
        ensures
            r == (ProjectorBuilder { misc_note: misc_note, ..self }),
    {
        ProjectorBuilder { misc_note: misc_note, ..self }
    }

    /// `Ok` when every required field is given, else a message for each one missing.
    fn validate(&self) -> (r: Result<(), Vec<String>>)
        ensures
            r is Ok <==> projector_missing(*self).len() == 0,
            r matches Err(v) ==> texts(v@) == projector_missing(*self),
    {
        let mut errors: Vec<String> = Vec::new();
        push_missing(&mut errors, self.brand.is_none(), "brand is required");
        push_missing(&mut errors, self.has_vga_out_port.is_none(), "has_vga_out_port is required");
        push_missing(&mut errors, self.has_dvi_out_port.is_none(), "has_dvi_out_port is required");
        push_missing(&mut errors, self.has_hdmi_out_port.is_none(), "has_hdmi_out_port is required");
        push_missing(&mut errors, self.has_display_port_out.is_none(), "has_display_port_out is required");
        proof {
            assert(texts(errors@) =~= projector_missing(*self));
        }
        if errors.len() > 0 {
            Err(errors)
        } else {
            Ok(())
        }
    }

    /// The record, or a message for each required field missing.
    pub fn build(self) -> (r: Result<NewProjector, Vec<String>>)
        ensures
            r is Ok <==> projector_missing(self).len() == 0,
            r matches Ok(n) ==> projector_record(self, n),
            r matches Err(v) ==> texts(v@) == projector_missing(self),
    {
        match self.validate() {
            Err(e) => Err(e),
            Ok(()) => {
                let brand = match self.brand { Some(x) => x, None => String::new() };
                let has_vga_out_port = match self.has_vga_out_port { Some(x) => x, None => false };
                let has_dvi_out_port = match self.has_dvi_out_port { Some(x) => x, None => false };
                let has_hdmi_out_port = match self.has_hdmi_out_port { Some(x) => x, None => false };
                let has_display_port_out = match self.has_display_port_out { Some(x) => x, None => false };
                Ok(NewProjector {
                    brand: brand,
                    has_vga_out_port: has_vga_out_port,
                    has_dvi_out_port: has_dvi_out_port,
                    has_hdmi_out_port: has_hdmi_out_port,
                    has_display_port_out: has_display_port_out,
                    equipmentsetid: self.equipmentsetid,
                    misc_note: self.misc_note,
                })
            },
        }
    }
}

/// A stored projector row: its own id and fields, and when it was written (microseconds).
pub struct ProjectorDbo {
    pub id: i64,
    pub brand: String,
    pub has_vga_out_port: bool,
    pub has_dvi_out_port: bool,
    pub has_hdmi_out_port: bool,
    pub has_display_port_out: bool,
    pub created_at: i64,
    pub updated_at: i64,
}

/// A projector together with the fields of its equipment record.
pub struct Projector {
    pub id: i64,
    pub brand: String,
    pub has_vga_out_port: bool,
    pub has_dvi_out_port: bool,
    pub has_hdmi_out_port: bool,
    pub has_display_port_out: bool,
    pub equipmentid: i64,
    pub equipmentsetid: i64,
    pub misc_note: Option<String>,
    pub created_at: i64,
    pub updated_at: i64,
}

/// The projector row to insert.
pub struct NewProjectorDbo {
    pub brand: String,
    pub has_vga_out_port: bool,
    pub has_dvi_out_port: bool,
    pub has_hdmi_out_port: bool,
    pub has_display_port_out: bool,
}

/// The changes to a stored projector row: `None` leaves a field as it is.
pub struct ProjectorDboChangeset {
    pub brand: Option<String>,
    pub has_vga_out_port: Option<bool>,
    pub has_dvi_out_port: Option<bool>,
    pub has_hdmi_out_port: Option<bool>,
    pub has_display_port_out: Option<bool>,
}

/// The changes to a projector and its equipment record: `None` leaves a field as it is.
pub struct ProjectorChangeSet {
    pub brand: Option<String>,
    pub has_vga_out_port: Option<bool>,
    pub has_dvi_out_port: Option<bool>,
    pub has_hdmi_out_port: Option<bool>,
    pub has_display_port_out: Option<bool>,
    pub equipmentsetid: Option<i64>,
    pub misc_note: Option<String>,
}

impl ProjectorDbo {
    /// The projector that this row and its equipment record describe; the times are the row's own.
    pub fn to_model(&self, equipment_dbo: EquipmentDbo) -> (r: Projector)
        ensures
            r.id == self.id,
            r.brand == self.brand,
            r.has_vga_out_port == self.has_vga_out_port,
            r.has_dvi_out_port == self.has_dvi_out_port,
            r.has_hdmi_out_port == self.has_hdmi_out_port,
            r.has_display_port_out == self.has_display_port_out,
            r.equipmentid == equipment_dbo.id,
            r.equipmentsetid == equipment_dbo.equipmentsetid,
            r.misc_note == equipment_dbo.misc_note,
            r.created_at == self.created_at,
            r.updated_at == self.updated_at,
    {
        Projector {
            id: self.id,
            brand: self.brand.clone(),
            has_vga_out_port: self.has_vga_out_port,
            has_dvi_out_port: self.has_dvi_out_port,
            has_hdmi_out_port: self.has_hdmi_out_port,
            has_display_port_out: self.has_display_port_out,
            equipmentid: equipment_dbo.id,
            equipmentsetid: equipment_dbo.equipmentsetid,
            misc_note: equipment_dbo.misc_note,
            created_at: self.created_at,
            updated_at: self.updated_at,
        }
    }
}

impl NewProjector {
    /// The projector row to insert for this record: its own fields, without the equipment record's.
    pub fn to_dbo(&self) -> (r: NewProjectorDbo)
        ensures
            r.brand == self.brand,
            r.has_vga_out_port == self.has_vga_out_port,
            r.has_dvi_out_port == self.has_dvi_out_port,
            r.has_hdmi_out_port == self.has_hdmi_out_port,
            r.has_display_port_out == self.has_display_port_out,
    {
        NewProjectorDbo {
            brand: self.brand.clone(),
            has_vga_out_port: self.has_vga_out_port,
            has_dvi_out_port: self.has_dvi_out_port,
            has_hdmi_out_port: self.has_hdmi_out_port,
            has_display_port_out: self.has_display_port_out,
        }
    }
}

impl ProjectorChangeSet {
    /// The changes split in two: those to the projector row, and those to its equipment record.
    pub fn to_dbos(&self) -> (r: (ProjectorDboChangeset, EquipmentDboChangeset))
        ensures
            r.0.brand == self.brand,
            r.0.has_vga_out_port == self.has_vga_out_port,
            r.0.has_dvi_out_port == self.has_dvi_out_port,
            r.0.has_hdmi_out_port == self.has_hdmi_out_port,
            r.0.has_display_port_out == self.has_display_port_out,
            r.1.misc_note == self.misc_note,
            r.1.equipmentsetid == self.equipmentsetid,
    {
        (
            ProjectorDboChangeset {
                brand: copy_text(&self.brand),
                has_vga_out_port: self.has_vga_out_port,
                has_dvi_out_port: self.has_dvi_out_port,
                has_hdmi_out_port: self.has_hdmi_out_port,
                has_display_port_out: self.has_display_port_out,
            },
            EquipmentDboChangeset { misc_note: copy_text(&self.misc_note), equipmentsetid: self.equipmentsetid },
        )
    }
}

/// The projector that a row and its equipment record describe; the times are the equipment record's.
pub fn covert_to_model_from_dbos(projector_dbo: ProjectorDbo, equipment_dbo: EquipmentDbo) -> (r: Projector)
    ensures
        r.id == projector_dbo.id,
        r.brand == projector_dbo.brand,
        r.has_vga_out_port == projector_dbo.has_vga_out_port,
        r.has_dvi_out_port == projector_dbo.has_dvi_out_port,
        r.has_hdmi_out_port == projector_dbo.has_hdmi_out_port,
        r.has_display_port_out == projector_dbo.has_display_port_out,
        r.equipmentid == equipment_dbo.id,
        r.equipmentsetid == equipment_dbo.equipmentsetid,
        r.misc_note == equipment_dbo.misc_note,
        r.created_at == equipment_dbo.created_at,
        r.updated_at == equipment_dbo.updated_at,
{
    Projector {
        id: projector_dbo.id,
        brand: projector_dbo.brand,
        has_vga_out_port: projector_dbo.has_vga_out_port,
        has_dvi_out_port: projector_dbo.has_dvi_out_port,
        has_hdmi_out_port: projector_dbo.has_hdmi_out_port,
        has_display_port_out: projector_dbo.has_display_port_out,
        equipmentid: equipment_dbo.id,
        equipmentsetid: equipment_dbo.equipmentsetid,
        misc_note: equipment_dbo.misc_note,
        created_at: equipment_dbo.created_at,
        updated_at: equipment_dbo.updated_at,
    }
}

} // verus!
