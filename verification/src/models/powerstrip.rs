//! Power strips of an equipment set, and the builder of their records.
use vstd::prelude::*;
use crate::models::equipment_dbo::{EquipmentDbo, EquipmentDboChangeset};
use crate::models::common::copy_text;
use crate::gameevent::event::{msg_if, texts};
use crate::models::common::push_missing;

verus! {

/// Collects a power strip's fields and checks that the required ones are given.
pub struct PowerStripBuilder {
    pub make: Option<String>,
    pub model: Option<String>,
    pub color: Option<String>,
    pub num_of_plugs: Option<i32>,
    pub equipmentsetid: i64,
    pub misc_note: Option<String>,
}

/// A power strip record to insert.
pub struct NewPowerStrip {
    pub make: String,
    pub model: String,
    pub color: String,
    pub num_of_plugs: i32,
    pub equipmentsetid: i64,
    pub misc_note: Option<String>,
}

/// The missing required fields, in the order they are checked.
pub open spec fn power_strip_missing(b: PowerStripBuilder) -> Seq<Seq<char>> {
    msg_if(b.make is None, "make is required"@)
        + msg_if(b.model is None, "model is required"@)
        + msg_if(b.color is None, "color is required"@)
        + msg_if(b.num_of_plugs is None, "num_of_plugs is required"@)
}

/// Whether `n` is the record that the complete builder `b` gives.
pub open spec fn power_strip_record(b: PowerStripBuilder, n: NewPowerStrip) -> bool {
    &&& b.make == Some(n.make)
    &&& b.model == Some(n.model)
    &&& b.color == Some(n.color)
    &&& b.num_of_plugs == Some(n.num_of_plugs)
    &&& n.equipmentsetid == b.equipmentsetid
    &&& n.misc_note == b.misc_note
}

impl PowerStripBuilder {
    /// A builder for equipment set `equipmentsetid` with nothing else given.
    pub fn new(equipmentsetid: i64) -> (r: Self)
        ensures
            r.make is None,
            r.model is None,
            r.color is None,
            r.num_of_plugs is None,
            r.equipmentsetid == equipmentsetid,
            r.misc_note is None,
    {
        PowerStripBuilder {
            make: None,
            model: None,
            color: None,
            num_of_plugs: None,
            equipmentsetid: equipmentsetid,
            misc_note: None,
        }
    }

    /// A builder for equipment set `equipmentsetid` with the usual defaults.
    pub fn new_default(equipmentsetid: i64) -> (r: Self)
        ensures
            r.make is None,
            r.model is None,
            r.color matches Some(s) && s@ == "black"@,
            r.num_of_plugs is None,
            r.equipmentsetid == equipmentsetid,
            r.misc_note matches Some(s) && s@ == Seq::<char>::empty(),
    {
        PowerStripBuilder {
            make: None,
            model: None,
            color: Some(String::from_str("black")),
            num_of_plugs: None,
            equipmentsetid: equipmentsetid,
            misc_note: Some(String::new()),
        }
    }

    pub fn set_make(self, make: Option<String>) -> (r: Self)
        ensures
            r == (PowerStripBuilder { make: make, ..self }),
    {
        PowerStripBuilder { make: make, ..self }
    }

    pub fn set_model(self, model: Option<String>) -> (r: Self)
        ensures
            r == (PowerStripBuilder { model: model, ..self }),
    {
        PowerStripBuilder { model: model, ..self }
    }

    pub fn set_color(self, color: Option<String>) -> (r: Self)
        ensures
            r == (PowerStripBuilder { color: color, ..self }),
    {
        PowerStripBuilder { color: color, ..self }
    }

    pub fn set_num_of_plugs(self, num_of_plugs: Option<i32>) -> (r: Self)
        ensures
            r == (PowerStripBuilder { num_of_plugs: num_of_plugs, ..self }),
    {
        PowerStripBuilder { num_of_plugs: num_of_plugs, ..self }
    }

    pub fn set_equipmentsetid(self, equipmentsetid: i64) -> (r: Self)
        ensures
            r == (PowerStripBuilder { equipmentsetid: equipmentsetid, ..self }),
    {
        PowerStripBuilder { equipmentsetid: equipmentsetid, ..self }
    }

    pub fn set_misc_note(self, misc_note: Option<String>) -> (r: Self)
        ensures
            r == (PowerStripBuilder { misc_note: misc_note, ..self }),
    {
        PowerStripBuilder { misc_note: misc_note, ..self }
    }

    /// `Ok` when every required field is given, else a message for each one missing.
    fn validate(&self) -> (r: Result<(), Vec<String>>)
        ensures
            r is Ok <==> power_strip_missing(*self).len() == 0,
            r matches Err(v) ==> texts(v@) == power_strip_missing(*self),
    {
        let mut errors: Vec<String> = Vec::new();
        push_missing(&mut errors, self.make.is_none(), "make is required");
        push_missing(&mut errors, self.model.is_none(), "model is required");
        push_missing(&mut errors, self.color.is_none(), "color is required");
        push_missing(&mut errors, self.num_of_plugs.is_none(), "num_of_plugs is required");
        proof {
            assert(texts(errors@) =~= power_strip_missing(*self));
        }
        if errors.len() > 0 {
            Err(errors)
        } else {
            Ok(())
        }
    }

    /// The record, or a message for each required field missing.
    pub fn build(self) -> (r: Result<NewPowerStrip, Vec<String>>)
        ensures
            r is Ok <==> power_strip_missing(self).len() == 0,
            r matches Ok(n) ==> power_strip_record(self, n),
            r matches Err(v) ==> texts(v@) == power_strip_missing(self),
    {
        match self.validate() {
            Err(e) => Err(e),
            Ok(()) => {
                let make = match self.make { Some(x) => x, None => String::new() };
                let model = match self.model { Some(x) => x, None => String::new() };
                let color = match self.color { Some(x) => x, None => String::new() };
                let num_of_plugs = match self.num_of_plugs { Some(x) => x, None => 0 };
                Ok(NewPowerStrip {
                    make: make,
                    model: model,
                    color: color,
                    num_of_plugs: num_of_plugs,
                    equipmentsetid: self.equipmentsetid,
                    misc_note: self.misc_note,
                })
            },
        }
    }
}

/// A stored power strip row: its own id and fields, and when it was written (microseconds).
pub struct PowerStripDbo {
    pub id: i64,
    pub make: String,
    pub model: String,
    pub color: String,
    pub num_of_plugs: i32,
    pub created_at: i64,
    pub updated_at: i64,
}

/// A power strip together with the fields of its equipment record.
pub struct PowerStrip {
    pub id: i64,
    pub make: String,
    pub model: String,
    pub color: String,
    pub num_of_plugs: i32,
    pub equipmentid: i64,
    pub equipmentsetid: i64,
    pub misc_note: Option<String>,
    pub created_at: i64,
    pub updated_at: i64,
}

/// The power strip row to insert.
pub struct NewPowerStripDbo {
    pub make: String,
    pub model: String,
    pub color: String,
    pub num_of_plugs: i32,
}

/// The changes to a stored power strip row: `None` leaves a field as it is.
pub struct PowerStripDboChangeset {
    pub make: Option<String>,
    pub model: Option<String>,
    pub color: Option<String>,
    pub num_of_plugs: Option<i32>,
}

/// The changes to a power strip and its equipment record: `None` leaves a field as it is.
pub struct PowerStripChangeSet {
    pub make: Option<String>,
    pub model: Option<String>,
    pub color: Option<String>,
    pub num_of_plugs: Option<i32>,
    pub equipmentsetid: Option<i64>,
    pub misc_note: Option<String>,
}

impl PowerStripDbo {
    /// The power strip that this row and its equipment record describe; the times are the row's own.
    pub fn to_model(&self, equipment_dbo: EquipmentDbo) -> (r: PowerStrip)
        ensures
            r.id == self.id,
            r.make == self.make,
            r.model == self.model,
            r.color == self.color,
            r.num_of_plugs == self.num_of_plugs,
            r.equipmentid == equipment_dbo.id,
            r.equipmentsetid == equipment_dbo.equipmentsetid,
            r.misc_note == equipment_dbo.misc_note,
            r.created_at == self.created_at,
            r.updated_at == self.updated_at,
    {
        PowerStrip {
            id: self.id,
            make: self.make.clone(),
            model: self.model.clone(),
            color: self.color.clone(),
            num_of_plugs: self.num_of_plugs,
            equipmentid: equipment_dbo.id,
            equipmentsetid: equipment_dbo.equipmentsetid,
            misc_note: equipment_dbo.misc_note,
            created_at: self.created_at,
            updated_at: self.updated_at,
        }
    }
}

impl NewPowerStrip {
    /// The power strip row to insert for this record: its own fields, without the equipment record's.
    pub fn to_dbo(&self) -> (r: NewPowerStripDbo)
        ensures
            r.make == self.make,
            r.model == self.model,
            r.color == self.color,
            r.num_of_plugs == self.num_of_plugs,
    {
        NewPowerStripDbo {
            make: self.make.clone(),
            model: self.model.clone(),
            color: self.color.clone(),
            num_of_plugs: self.num_of_plugs,
        }
    }
}

impl PowerStripChangeSet {
    /// The changes split in two: those to the power strip row, and those to its equipment record.
    pub fn to_dbos(&self) -> (r: (PowerStripDboChangeset, EquipmentDboChangeset))
        ensures
            r.0.make == self.make,
            r.0.model == self.model,
            r.0.color == self.color,
            r.0.num_of_plugs == self.num_of_plugs,
            r.1.misc_note == self.misc_note,
            r.1.equipmentsetid == self.equipmentsetid,
    {
        (
            PowerStripDboChangeset {
                make: copy_text(&self.make),
                model: copy_text(&self.model),
                color: copy_text(&self.color),
                num_of_plugs: self.num_of_plugs,
            },
            EquipmentDboChangeset { misc_note: copy_text(&self.misc_note), equipmentsetid: self.equipmentsetid },
        )
    }
}

/// The power strip that a row and its equipment record describe; the times are the equipment record's.
pub fn covert_to_model_from_dbos(powerstrip_dbo: PowerStripDbo, equipment_dbo: EquipmentDbo) -> (r: PowerStrip)
    ensures
        r.id == powerstrip_dbo.id,
        r.make == powerstrip_dbo.make,
        r.model == powerstrip_dbo.model,
        r.color == powerstrip_dbo.color,
        r.num_of_plugs == powerstrip_dbo.num_of_plugs,
        r.equipmentid == equipment_dbo.id,
        r.equipmentsetid == equipment_dbo.equipmentsetid,
        r.misc_note == equipment_dbo.misc_note,
        r.created_at == equipment_dbo.created_at,
        r.updated_at == equipment_dbo.updated_at,
{
    PowerStrip {
        id: powerstrip_dbo.id,
        make: powerstrip_dbo.make,
        model: powerstrip_dbo.model,
        color: powerstrip_dbo.color,
        num_of_plugs: powerstrip_dbo.num_of_plugs,
        equipmentid: equipment_dbo.id,
        equipmentsetid: equipment_dbo.equipmentsetid,
        misc_note: equipment_dbo.misc_note,
        created_at: equipment_dbo.created_at,
        updated_at: equipment_dbo.updated_at,
    }
}

} // verus!
