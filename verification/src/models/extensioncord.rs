//! Extension cords of an equipment set, and the builder of their records.
use vstd::prelude::*;
use crate::models::equipment_dbo::{EquipmentDbo, EquipmentDboChangeset};
use crate::models::common::copy_text;
use crate::gameevent::event::{msg_if, texts};
use crate::models::common::push_missing;

verus! {

/// Collects an extension cord's fields and checks that the required ones are given.
pub struct ExtensionCordBuilder {
    pub color: Option<String>,
    pub length: Option<String>,
    pub equipmentsetid: i64,
    pub misc_note: Option<String>,
}

/// A extension cord record to insert.
pub struct NewExtensionCord {
    pub color: String,
    pub length: String,
    pub equipmentsetid: i64,
    pub misc_note: Option<String>,
}

/// The missing required fields, in the order they are checked.
pub open spec fn extension_cord_missing(b: ExtensionCordBuilder) -> Seq<Seq<char>> {
    msg_if(b.color is None, "color is required"@)
        + msg_if(b.length is None, "length is required"@)
}

/// Whether `n` is the record that the complete builder `b` gives.
pub open spec fn extension_cord_record(b: ExtensionCordBuilder, n: NewExtensionCord) -> bool {
    &&& b.color == Some(n.color)
    &&& b.length == Some(n.length)
    &&& n.equipmentsetid == b.equipmentsetid
    &&& n.misc_note == b.misc_note
}

impl ExtensionCordBuilder {
    /// A builder for equipment set `equipmentsetid` with nothing else given.
    pub fn new(equipmentsetid: i64) -> (r: Self)
        ensures
            r.color is None,
            r.length is None,
            r.equipmentsetid == equipmentsetid,
            r.misc_note is None,
    {
        ExtensionCordBuilder {
            color: None,
            length: None,
            equipmentsetid: equipmentsetid,
            misc_note: None,
        }
    }

    /// A builder for equipment set `equipmentsetid` with the usual defaults.
    pub fn new_default(equipmentsetid: i64) -> (r: Self)
        ensures
            r.color matches Some(s) && s@ == "black"@,
            r.length is None,
            r.equipmentsetid == equipmentsetid,
            r.misc_note matches Some(s) && s@ == Seq::<char>::empty(),
    {
        ExtensionCordBuilder {
            color: Some(String::from_str("black")),
            length: None,
            equipmentsetid: equipmentsetid,
            misc_note: Some(String::new()),
        }
    }

    pub fn set_color(self, color: Option<String>) -> (r: Self)
        ensures
            r == (ExtensionCordBuilder { color: color, ..self }),
    {
        ExtensionCordBuilder { color: color, ..self }
    }

    pub fn set_length(self, length: Option<String>) -> (r: Self)
        ensures
            r == (ExtensionCordBuilder { length: length, ..self }),
    {
        ExtensionCordBuilder { length: length, ..self }
    }

    pub fn set_equipmentsetid(self, equipmentsetid: i64) -> (r: Self)
        ensures
            r == (ExtensionCordBuilder { equipmentsetid: equipmentsetid, ..self }),
    {
        ExtensionCordBuilder { equipmentsetid: equipmentsetid, ..self }
    }

    pub fn set_misc_note(self, misc_note: Option<String>) -> (r: Self)
        ensures
            r == (ExtensionCordBuilder { misc_note: misc_note, ..self }),
    {
        ExtensionCordBuilder { misc_note: misc_note, ..self }
    }

    /// `Ok` when every required field is given, else a message for each one missing.
    fn validate(&self) -> (r: Result<(), Vec<String>>)
        ensures
            r is Ok <==> extension_cord_missing(*self).len() == 0,
            r matches Err(v) ==> texts(v@) == extension_cord_missing(*self),
    {
        let mut errors: Vec<String> = Vec::new();
        push_missing(&mut errors, self.color.is_none(), "color is required");
        push_missing(&mut errors, self.length.is_none(), "length is required");
        proof {
            assert(texts(errors@) =~= extension_cord_missing(*self));
        }
        if errors.len() > 0 {
            Err(errors)
        } else {
            Ok(())
        }
    }

    /// The record, or a message for each required field missing.
    pub fn build(self) -> (r: Result<NewExtensionCord, Vec<String>>)
        ensures
            r is Ok <==> extension_cord_missing(self).len() == 0,
            r matches Ok(n) ==> extension_cord_record(self, n),
            r matches Err(v) ==> texts(v@) == extension_cord_missing(self),
    {
        match self.validate() {
            Err(e) => Err(e),
            Ok(()) => {
                let color = match self.color { Some(x) => x, None => String::new() };
                let length = match self.length { Some(x) => x, None => String::new() };
                Ok(NewExtensionCord {
                    color: color,
                    length: length,
                    equipmentsetid: self.equipmentsetid,
                    misc_note: self.misc_note,
                })
            },
        }
    }
}

/// A stored extension cord row: its own id and fields, and when it was written (microseconds).
pub struct ExtensionCordDbo {
    pub id: i64,
    pub color: String,
    pub length: String,
    pub created_at: i64,
    pub updated_at: i64,
}

/// A extension cord together with the fields of its equipment record.
pub struct ExtensionCord {
    pub id: i64,
    pub color: String,
    pub length: String,
    pub equipmentid: i64,
    pub equipmentsetid: i64,
    pub misc_note: Option<String>,
    pub created_at: i64,
    pub updated_at: i64,
}

/// The extension cord row to insert.
pub struct NewExtensionCordDbo {
    pub color: String,
    pub length: String,
}

/// The changes to a stored extension cord row: `None` leaves a field as it is.
pub struct ExtensionCordDboChangeset {
    pub color: Option<String>,
    pub length: Option<String>,
}

/// The changes to a extension cord and its equipment record: `None` leaves a field as it is.
pub struct ExtensionCordChangeSet {
    pub color: Option<String>,
    pub length: Option<String>,
    pub equipmentsetid: Option<i64>,
    pub misc_note: Option<String>,
}

impl ExtensionCordDbo {
    /// The extension cord that this row and its equipment record describe; the times are the row's own.
    pub fn to_model(&self, equipment_dbo: EquipmentDbo) -> (r: ExtensionCord)
        ensures
            r.id == self.id,
            r.color == self.color,
            r.length == self.length,
            r.equipmentid == equipment_dbo.id,
            r.equipmentsetid == equipment_dbo.equipmentsetid,
            r.misc_note == equipment_dbo.misc_note,
            r.created_at == self.created_at,
            r.updated_at == self.updated_at,
    {
        ExtensionCord {
            id: self.id,
            color: self.color.clone(),
            length: self.length.clone(),
            equipmentid: equipment_dbo.id,
            equipmentsetid: equipment_dbo.equipmentsetid,
            misc_note: equipment_dbo.misc_note,
            created_at: self.created_at,
            updated_at: self.updated_at,
        }
    }
}

impl NewExtensionCord {
    /// The extension cord row to insert for this record: its own fields, without the equipment record's.
    pub fn to_dbo(&self) -> (r: NewExtensionCordDbo)
        ensures
            r.color == self.color,
            r.length == self.length,
    {
        NewExtensionCordDbo {
            color: self.color.clone(),
            length: self.length.clone(),
        }
    }
}

impl ExtensionCordChangeSet {
    /// The changes split in two: those to the extension cord row, and those to its equipment record.
    pub fn to_dbos(&self) -> (r: (ExtensionCordDboChangeset, EquipmentDboChangeset))
        ensures
            r.0.color == self.color,
            r.0.length == self.length,
            r.1.misc_note == self.misc_note,
            r.1.equipmentsetid == self.equipmentsetid,
    {
        (
            ExtensionCordDboChangeset {
                color: copy_text(&self.color),
                length: copy_text(&self.length),
            },
            EquipmentDboChangeset { misc_note: copy_text(&self.misc_note), equipmentsetid: self.equipmentsetid },
        )
    }
}

/// The extension cord that a row and its equipment record describe; the times are the equipment record's.
pub fn covert_to_model_from_dbos(extensioncord_dbo: ExtensionCordDbo, equipment_dbo: EquipmentDbo) -> (r: ExtensionCord)
    ensures
        r.id == extensioncord_dbo.id,
        r.color == extensioncord_dbo.color,
        r.length == extensioncord_dbo.length,
        r.equipmentid == equipment_dbo.id,
        r.equipmentsetid == equipment_dbo.equipmentsetid,
        r.misc_note == equipment_dbo.misc_note,
        r.created_at == equipment_dbo.created_at,
        r.updated_at == equipment_dbo.updated_at,
{
    ExtensionCord {
        id: extensioncord_dbo.id,
        color: extensioncord_dbo.color,
        length: extensioncord_dbo.length,
        equipmentid: equipment_dbo.id,
        equipmentsetid: equipment_dbo.equipmentsetid,
        misc_note: equipment_dbo.misc_note,
        created_at: equipment_dbo.created_at,
        updated_at: equipment_dbo.updated_at,
    }
}

} // verus!
