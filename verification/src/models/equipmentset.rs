//! Equipment sets: the gear an owner brings, and the builder of their records.
use vstd::prelude::*;
use crate::gameevent::event::{msg_if, texts};
use crate::models::common::push_missing;

verus! {

/// Collects an equipment set's fields (the owner's id as a 128-bit integer) and checks that the required ones are given.
pub struct EquipmentSetBuilder {
    pub equipmentownerid: u128,
    pub is_active: Option<bool>,
    pub is_default: Option<bool>,
    pub name: Option<String>,
    pub description: Option<String>,
}

/// An equipment set record to insert.
pub struct NewEquipmentSet {
    pub equipmentownerid: u128,
    pub is_active: bool,
    pub is_default: Option<bool>,
    pub name: String,
    pub description: Option<String>,
}

/// The missing required fields, in the order they are checked.
pub open spec fn equipment_set_missing(b: EquipmentSetBuilder) -> Seq<Seq<char>> {
    msg_if(b.name is None, "name is required"@)
        + msg_if(b.is_active is None, "is_active is required"@)
}

/// Whether `n` is the record that the complete builder `b` gives.
pub open spec fn equipment_set_record(b: EquipmentSetBuilder, n: NewEquipmentSet) -> bool {
    &&& n.equipmentownerid == b.equipmentownerid
    &&& b.is_active == Some(n.is_active)
    &&& n.is_default == b.is_default
    &&& b.name == Some(n.name)
    &&& n.description == b.description
}

impl EquipmentSetBuilder {
    /// A builder for a set of owner `equipmentownerid` with nothing else given.
    pub fn new(equipmentownerid: u128) -> (r: Self)
        ensures
            r.equipmentownerid == equipmentownerid,
            r.is_active is None,
            r.is_default is None,
            r.name is None,
            r.description is None,
    {
        EquipmentSetBuilder {
            equipmentownerid: equipmentownerid,
            is_active: None,
            is_default: None,
            name: None,
            description: None,
        }
    }

    /// A builder for an active, non-default set of owner `equipmentownerid` with the usual name and description.
    pub fn new_default(equipmentownerid: u128) -> (r: Self)
        ensures
            r.equipmentownerid == equipmentownerid,
            r.is_active == Some(true),
            r.is_default == Some(false),
            r.name matches Some(s) && s@ == "Default Equipment Set"@,
            r.description matches Some(s) && s@ == "This is the description."@,
    {
        EquipmentSetBuilder {
            equipmentownerid: equipmentownerid,
            is_active: Some(true),
            is_default: Some(false),
            name: Some(String::from_str("Default Equipment Set")),
            description: Some(String::from_str("This is the description.")),
        }
    }

    pub fn set_equipmentownerid(self, equipmentownerid: u128) -> (r: Self)
        ensures
            r == (EquipmentSetBuilder { equipmentownerid: equipmentownerid, ..self }),
    {
        EquipmentSetBuilder { equipmentownerid: equipmentownerid, ..self }
    }

    pub fn set_is_active(self, is_active: bool) -> (r: Self)
        ensures
            r == (EquipmentSetBuilder { is_active: Some(is_active), ..self }),
    {
        EquipmentSetBuilder { is_active: Some(is_active), ..self }
    }

    pub fn set_is_default(self, is_default: bool) -> (r: Self)
        ensures
            r == (EquipmentSetBuilder { is_default: Some(is_default), ..self }),
    {
        EquipmentSetBuilder { is_default: Some(is_default), ..self }
    }

    pub fn set_name(self, equipmentset_name: &str) -> (r: Self)
        ensures
            r.name matches Some(s) && s@ == equipmentset_name@,
            r == (EquipmentSetBuilder { name: r.name, ..self }),
    {
        EquipmentSetBuilder { name: Some(String::from_str(equipmentset_name)), ..self }
    }

    pub fn set_description(self, description: Option<String>) -> (r: Self)
        ensures
            r == (EquipmentSetBuilder { description: description, ..self }),
    {
        EquipmentSetBuilder { description: description, ..self }
    }

    /// `Ok` when every required field is given, else a message for each one missing.
    fn validate_all_are_some(&self) -> (r: Result<(), Vec<String>>)
        ensures
            r is Ok <==> equipment_set_missing(*self).len() == 0,
            r matches Err(v) ==> texts(v@) == equipment_set_missing(*self),
    {
        let mut errors: Vec<String> = Vec::new();
        push_missing(&mut errors, self.name.is_none(), "name is required");
        push_missing(&mut errors, self.is_active.is_none(), "is_active is required");
        proof {
            assert(texts(errors@) =~= equipment_set_missing(*self));
        }
        if errors.len() > 0 {
            Err(errors)
        } else {
            Ok(())
        }
    }

    /// The record, or a message for each required field missing.
    pub fn build(self) -> (r: Result<NewEquipmentSet, Vec<String>>)
        ensures
            r is Ok <==> equipment_set_missing(self).len() == 0,
            r matches Ok(n) ==> equipment_set_record(self, n),
            r matches Err(v) ==> texts(v@) == equipment_set_missing(self),
    {
        match self.validate_all_are_some() {
            Err(e) => Err(e),
            Ok(()) => {
                let is_active = match self.is_active { Some(x) => x, None => false };
                let name = match self.name { Some(x) => x, None => String::new() };
                Ok(NewEquipmentSet {
                    equipmentownerid: self.equipmentownerid,
                    is_active: is_active,
                    is_default: self.is_default,
                    name: name,
                    description: self.description,
                })
            },
        }
    }
}

} // verus!
