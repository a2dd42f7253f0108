//! Jump pads of an equipment set, and the builder of their records.
use vstd::prelude::*;
use crate::models::equipment_dbo::{EquipmentDbo, EquipmentDboChangeset, NewEquipmentDbo};
use crate::models::common::copy_text;
use crate::gameevent::event::{msg_if, texts};
use crate::models::common::push_missing;

verus! {

/// Collects a jump pad's fields and checks that the required ones are given.
pub struct JumpPadBuilder {
    pub color: Option<String>,
    pub equipmentsetid: i64,
    pub misc_note: Option<String>,
}

/// A jump pad record to insert.
pub struct NewJumpPad {
    pub color: String,
    pub equipmentsetid: i64,
    pub misc_note: Option<String>,
}

/// The missing required fields, in the order they are checked.
pub open spec fn jump_pad_missing(b: JumpPadBuilder) -> Seq<Seq<char>> {
    msg_if(b.color is None, "color is required"@)
}

/// Whether `n` is the record that the complete builder `b` gives.
pub open spec fn jump_pad_record(b: JumpPadBuilder, n: NewJumpPad) -> bool {
    &&& b.color == Some(n.color)
    &&& n.equipmentsetid == b.equipmentsetid
    &&& n.misc_note == b.misc_note
}

impl JumpPadBuilder {
    /// A builder for equipment set `equipmentsetid` with nothing else given.
    pub fn new(equipmentsetid: i64) -> (r: Self)
        ensures
            r.color is None,
            r.equipmentsetid == equipmentsetid,
            r.misc_note is None,
    {
        JumpPadBuilder {
            color: None,
            equipmentsetid: equipmentsetid,
            misc_note: None,
        }
    }

    /// A builder for equipment set `equipmentsetid` with the usual defaults.
    pub fn new_default(equipmentsetid: i64) -> (r: Self)
        ensures
            r.color matches Some(s) && s@ == Seq::<char>::empty(),
            r.equipmentsetid == equipmentsetid,
            r.misc_note is None,
    {
        JumpPadBuilder {
            color: Some(String::new()),
            equipmentsetid: equipmentsetid,
            misc_note: None,
        }
    }

    pub fn set_color(self, color: Option<String>) -> (r: Self)
        ensures
            r == (JumpPadBuilder { color: color, ..self }),
    {
        JumpPadBuilder { color: color, ..self }
    }

    pub fn set_equipmentsetid(self, equipmentsetid: i64) -> (r: Self)
        ensures
            r == (JumpPadBuilder { equipmentsetid: equipmentsetid, ..self }),
    {
        JumpPadBuilder { equipmentsetid: equipmentsetid, ..self }
    }

    pub fn set_misc_note(self, misc_note: Option<String>) -> (r: Self)
        ensures
            r == (JumpPadBuilder { misc_note: misc_note, ..self }),
    {
        JumpPadBuilder { misc_note: misc_note, ..self }
    }

    /// `Ok` when every required field is given, else a message for each one missing.
    fn validate(&self) -> (r: Result<(), Vec<String>>)
        ensures
            r is Ok <==> jump_pad_missing(*self).len() == 0,
            r matches Err(v) ==> texts(v@) == jump_pad_missing(*self),
    {
        let mut errors: Vec<String> = Vec::new();
        push_missing(&mut errors, self.color.is_none(), "color is required");
        proof {
            assert(texts(errors@) =~= jump_pad_missing(*self));
        }
        if errors.len() > 0 {
            Err(errors)
        } else {
            Ok(())
        }
    }

    /// The record, or a message for each required field missing.
    pub fn build(self) -> (r: Result<NewJumpPad, Vec<String>>)
        ensures
            r is Ok <==> jump_pad_missing(self).len() == 0,
            r matches Ok(n) ==> jump_pad_record(self, n),
            r matches Err(v) ==> texts(v@) == jump_pad_missing(self),
    {
        match self.validate() {
            Err(e) => Err(e),
            Ok(()) => {
                let color = match self.color { Some(x) => x, None => String::new() };
                Ok(NewJumpPad {
                    color: color,
                    equipmentsetid: self.equipmentsetid,
                    misc_note: self.misc_note,
                })
            },
        }
    }
}

/// A stored jump pad row: its own id and fields, and when it was written (microseconds).
pub struct JumpPadDbo {
    pub jumppadid: i64,
    pub color: String,
    pub created_at: i64,
    pub updated_at: i64,
}

/// A jump pad together with the fields of its equipment record.
pub struct JumpPad {
    pub jumppadid: i64,
    pub color: String,
    pub equipmentid: i64,
    pub equipmentsetid: i64,
    pub misc_note: Option<String>,
    pub created_at: i64,
    pub updated_at: i64,
}

/// The jump pad row to insert.
pub struct NewJumpPadDbo {
    pub color: String,
}

/// The changes to a stored jump pad row: `None` leaves a field as it is.
pub struct JumpPadDboChangeset {
    pub color: Option<String>,
}

/// The changes to a jump pad and its equipment record: `None` leaves a field as it is.
pub struct JumpPadChangeSet {
    pub color: Option<String>,
    pub equipmentsetid: Option<i64>,
    pub misc_note: Option<String>,
}

impl JumpPadDbo {
    /// The jump pad that this row and its equipment record describe; the times are the row's own.
    pub fn to_model(&self, equipment_dbo: EquipmentDbo) -> (r: JumpPad)
        ensures
            r.jumppadid == self.jumppadid,
            r.color == self.color,
            r.equipmentid == equipment_dbo.id,
            r.equipmentsetid == equipment_dbo.equipmentsetid,
            r.misc_note == equipment_dbo.misc_note,
            r.created_at == self.created_at,
            r.updated_at == self.updated_at,
    {
        JumpPad {
            jumppadid: self.jumppadid,
            color: self.color.clone(),
            equipmentid: equipment_dbo.id,
            equipmentsetid: equipment_dbo.equipmentsetid,
            misc_note: equipment_dbo.misc_note,
            created_at: self.created_at,
            updated_at: self.updated_at,
        }
    }
}

impl JumpPad {
    /// The row of this jump pad: its id, fields and times.
    pub fn to_dbo(&self) -> (r: JumpPadDbo)
        ensures
            r.jumppadid == self.jumppadid,
            r.color == self.color,
            r.created_at == self.created_at,
            r.updated_at == self.updated_at,
    {
        JumpPadDbo {
            jumppadid: self.jumppadid,
            color: self.color.clone(),
            created_at: self.created_at,
            updated_at: self.updated_at,
        }
    }
}

impl NewJumpPad {
    /// The jump pad row to insert for this record: its own fields, without the equipment record's.
    pub fn to_dbo(&self) -> (r: NewJumpPadDbo)
        ensures
            r.color == self.color,
    {
        NewJumpPadDbo {
            color: self.color.clone(),
        }
    }
}

impl NewJumpPadDbo {
    /// The record that this row and the equipment record `new_equipment_dbo` make up.
    pub fn to_model(&self, new_equipment_dbo: NewEquipmentDbo) -> (r: NewJumpPad)
        ensures
            r.color == self.color,
            r.equipmentsetid == new_equipment_dbo.equipmentsetid,
            r.misc_note == new_equipment_dbo.misc_note,
    {
        NewJumpPad {
            color: self.color.clone(),
            equipmentsetid: new_equipment_dbo.equipmentsetid,
            misc_note: new_equipment_dbo.misc_note,
        }
    }
}

impl JumpPadChangeSet {
    /// The changes split in two: those to the jump pad row, and those to its equipment record.
    pub fn to_dbos(&self) -> (r: (JumpPadDboChangeset, EquipmentDboChangeset))
        ensures
            r.0.color == self.color,
            r.1.misc_note == self.misc_note,
            r.1.equipmentsetid == self.equipmentsetid,
    {
        (
            JumpPadDboChangeset {
                color: copy_text(&self.color),
            },
            EquipmentDboChangeset { misc_note: copy_text(&self.misc_note), equipmentsetid: self.equipmentsetid },
        )
    }
}

/// The jump pad that a row and its equipment record describe; the times are the equipment record's.
pub fn covert_to_model_from_dbos(jumppad_dbo: JumpPadDbo, equipment_dbo: EquipmentDbo) -> (r: JumpPad)
    ensures
        r.jumppadid == jumppad_dbo.jumppadid,
        r.color == jumppad_dbo.color,
        r.equipmentid == equipment_dbo.id,
        r.equipmentsetid == equipment_dbo.equipmentsetid,
        r.misc_note == equipment_dbo.misc_note,
        r.created_at == equipment_dbo.created_at,
        r.updated_at == equipment_dbo.updated_at,
{
    JumpPad {
        jumppadid: jumppad_dbo.jumppadid,
        color: jumppad_dbo.color,
        equipmentid: equipment_dbo.id,
        equipmentsetid: equipment_dbo.equipmentsetid,
        misc_note: equipment_dbo.misc_note,
        created_at: equipment_dbo.created_at,
        updated_at: equipment_dbo.updated_at,
    }
}

} // verus!
