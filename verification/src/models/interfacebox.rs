//! Interface boxes of an equipment set, and the builder of their records.
use vstd::prelude::*;
use crate::models::equipment_dbo::{EquipmentDbo, EquipmentDboChangeset};
use crate::models::common::copy_text;
use crate::gameevent::event::{msg_if, texts};
use crate::models::common::push_missing;

verus! {

/// Collects an interface box's fields and checks that the required ones are given.
pub struct InterfaceBoxBuilder {
    pub type_: Option<String>,
    pub serial_number: Option<String>,
    pub equipmentsetid: i64,
    pub misc_note: Option<String>,
}

/// A interface box record to insert.
pub struct NewInterfaceBox {
    pub type_: String,
    pub serial_number: Option<String>,
    pub equipmentsetid: i64,
    pub misc_note: Option<String>,
}

/// The missing required fields, in the order they are checked.
pub open spec fn interface_box_missing(b: InterfaceBoxBuilder) -> Seq<Seq<char>> {
    msg_if(b.type_ is None, "type_ is required"@)
        + msg_if(b.serial_number is None, "serial_number is required"@)
}

/// Whether `n` is the record that the complete builder `b` gives.
pub open spec fn interface_box_record(b: InterfaceBoxBuilder, n: NewInterfaceBox) -> bool {
    &&& b.type_ == Some(n.type_)
    &&& n.serial_number == b.serial_number
    &&& n.equipmentsetid == b.equipmentsetid
    &&& n.misc_note == b.misc_note
}

impl InterfaceBoxBuilder {
    /// A builder for equipment set `equipmentsetid` with nothing else given.
    pub fn new(equipmentsetid: i64) -> (r: Self)
        ensures
            r.type_ is None,
            r.serial_number is None,
            r.equipmentsetid == equipmentsetid,
            r.misc_note is None,
    {
        InterfaceBoxBuilder {
            type_: None,
            serial_number: None,
            equipmentsetid: equipmentsetid,
            misc_note: None,
        }
    }

    /// A builder for equipment set `equipmentsetid` with the usual defaults.
    pub fn new_default(equipmentsetid: i64) -> (r: Self)
        ensures
            r.type_ is None,
            r.serial_number matches Some(s) && s@ == "hajujs8i699li8"@,
            r.equipmentsetid == equipmentsetid,
            r.misc_note is None,
    {
        InterfaceBoxBuilder {
            type_: None,
            serial_number: Some(String::from_str("hajujs8i699li8")),
            equipmentsetid: equipmentsetid,
            misc_note: None,
        }
    }

    pub fn set_type_(self, type_: Option<String>) -> (r: Self)
        ensures
            r == (InterfaceBoxBuilder { type_: type_, ..self }),
    {
        InterfaceBoxBuilder { type_: type_, ..self }
    }

    pub fn set_serial_number(self, serial_number: Option<String>) -> (r: Self)
        ensures
            r == (InterfaceBoxBuilder { serial_number: serial_number, ..self }),
    {
        InterfaceBoxBuilder { serial_number: serial_number, ..self }
    }

    pub fn set_equipmentsetid(self, equipmentsetid: i64) -> (r: Self)
        ensures
            r == (InterfaceBoxBuilder { equipmentsetid: equipmentsetid, ..self }),
    {
        InterfaceBoxBuilder { equipmentsetid: equipmentsetid, ..self }
    }

    pub fn set_misc_note(self, misc_note: Option<String>) -> (r: Self)
        ensures
            r == (InterfaceBoxBuilder { misc_note: misc_note, ..self }),
    {
        InterfaceBoxBuilder { misc_note: misc_note, ..self }
    }

    /// `Ok` when every required field is given, else a message for each one missing.
    fn validate(&self) -> (r: Result<(), Vec<String>>)
        ensures
            r is Ok <==> interface_box_missing(*self).len() == 0,
            r matches Err(v) ==> texts(v@) == interface_box_missing(*self),
    {
        let mut errors: Vec<String> = Vec::new();
        push_missing(&mut errors, self.type_.is_none(), "type_ is required");
        push_missing(&mut errors, self.serial_number.is_none(), "serial_number is required");
        proof {
            assert(texts(errors@) =~= interface_box_missing(*self));
        }
        if errors.len() > 0 {
            Err(errors)
        } else {
            Ok(())
        }
    }

    /// The record, or a message for each required field missing.
    pub fn build(self) -> (r: Result<NewInterfaceBox, Vec<String>>)
        ensures
            r is Ok <==> interface_box_missing(self).len() == 0,
            r matches Ok(n) ==> interface_box_record(self, n),
            r matches Err(v) ==> texts(v@) == interface_box_missing(self),
    {
        match self.validate() {
            Err(e) => Err(e),
            Ok(()) => {
                let type_ = match self.type_ { Some(x) => x, None => String::new() };
                Ok(NewInterfaceBox {
                    type_: type_,
                    serial_number: self.serial_number,
                    equipmentsetid: self.equipmentsetid,
                    misc_note: self.misc_note,
                })
            },
        }
    }
}

/// A stored interface box row: its own id and fields, and when it was written (microseconds).
pub struct InterfaceBoxDbo {
    pub id: i64,
    pub type_: String,
    pub serial_number: Option<String>,
    pub created_at: i64,
    pub updated_at: i64,
}

/// A interface box together with the fields of its equipment record.
pub struct InterfaceBox {
    pub id: i64,
    pub type_: String,
    pub serial_number: Option<String>,
    pub equipmentid: i64,
    pub equipmentsetid: i64,
    pub misc_note: Option<String>,
    pub created_at: i64,
    pub updated_at: i64,
}

/// The interface box row to insert.
pub struct NewInterfaceBoxDbo {
    pub type_: String,
    pub serial_number: Option<String>,
}

/// The changes to a stored interface box row: `None` leaves a field as it is.
pub struct InterfaceBoxDboChangeset {
    pub type_: String,
    pub serial_number: Option<String>,
}

/// The changes to a interface box and its equipment record: `None` leaves a field as it is.
pub struct InterfaceBoxChangeSet {
    pub type_: String,
    pub serial_number: Option<String>,
    pub equipmentsetid: Option<i64>,
    pub misc_note: Option<String>,
}

impl InterfaceBoxDbo {
    /// The interface box that this row and its equipment record describe; the times are the row's own.
    pub fn to_model(&self, equipment_dbo: EquipmentDbo) -> (r: InterfaceBox)
        ensures
            r.id == self.id,
            r.type_ == self.type_,
            r.serial_number == self.serial_number,
            r.equipmentid == equipment_dbo.id,
            r.equipmentsetid == equipment_dbo.equipmentsetid,
            r.misc_note == equipment_dbo.misc_note,
            r.created_at == self.created_at,
            r.updated_at == self.updated_at,
    {
        InterfaceBox {
            id: self.id,
            type_: self.type_.clone(),
            serial_number: copy_text(&self.serial_number),
            equipmentid: equipment_dbo.id,
            equipmentsetid: equipment_dbo.equipmentsetid,
            misc_note: equipment_dbo.misc_note,
            created_at: self.created_at,
            updated_at: self.updated_at,
        }
    }
}

impl NewInterfaceBox {
    /// The interface box row to insert for this record: its own fields, without the equipment record's.
    pub fn to_dbo(&self) -> (r: NewInterfaceBoxDbo)
        ensures
            r.type_ == self.type_,
            r.serial_number == self.serial_number,
    {
        NewInterfaceBoxDbo {
            type_: self.type_.clone(),
            serial_number: copy_text(&self.serial_number),
        }
    }
}

impl InterfaceBoxChangeSet {
    /// The changes split in two: those to the interface box row, and those to its equipment record.
    pub fn to_dbos(&self) -> (r: (InterfaceBoxDboChangeset, EquipmentDboChangeset))
        ensures
            r.0.type_ == self.type_,
            r.0.serial_number == self.serial_number,
            r.1.misc_note == self.misc_note,
            r.1.equipmentsetid == self.equipmentsetid,
    {
        (
            InterfaceBoxDboChangeset {
                type_: self.type_.clone(),
                serial_number: copy_text(&self.serial_number),
            },
            EquipmentDboChangeset { misc_note: copy_text(&self.misc_note), equipmentsetid: self.equipmentsetid },
        )
    }
}

/// The interface box that a row and its equipment record describe; the times are the equipment record's.
pub fn covert_to_model_from_dbos(interfacebox_dbo: InterfaceBoxDbo, equipment_dbo: EquipmentDbo) -> (r: InterfaceBox)
    ensures
        r.id == interfacebox_dbo.id,
        r.type_ == interfacebox_dbo.type_,
        r.serial_number == interfacebox_dbo.serial_number,
        r.equipmentid == equipment_dbo.id,
        r.equipmentsetid == equipment_dbo.equipmentsetid,
        r.misc_note == equipment_dbo.misc_note,
        r.created_at == equipment_dbo.created_at,
        r.updated_at == equipment_dbo.updated_at,
{
    InterfaceBox {
        id: interfacebox_dbo.id,
        type_: interfacebox_dbo.type_,
        serial_number: interfacebox_dbo.serial_number,
        equipmentid: equipment_dbo.id,
        equipmentsetid: equipment_dbo.equipmentsetid,
        misc_note: equipment_dbo.misc_note,
        created_at: equipment_dbo.created_at,
        updated_at: equipment_dbo.updated_at,
    }
}

} // verus!
