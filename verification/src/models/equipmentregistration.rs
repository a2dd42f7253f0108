//! Registrations of equipment at a tournament, and the builder of their records.
use vstd::prelude::*;
use crate::gameevent::event::{msg_if, texts};
use crate::models::common::push_missing;

verus! {

/// Collects an equipment registration's fields (ids of tournaments and rooms as 128-bit integers) and checks that the required ones are given.
pub struct EquipmentRegistrationBuilder {
    pub equipmentid: i64,
    pub tournamentid: u128,
    pub roomid: Option<u128>,
    pub status: Option<String>,
}

/// An equipment registration record to insert.
pub struct NewEquipmentRegistration {
    pub equipmentid: i64,
    pub tournamentid: u128,
    pub roomid: Option<u128>,
    pub status: String,
}

/// The missing required fields, in the order they are checked.
pub open spec fn equipment_registration_missing(b: EquipmentRegistrationBuilder) -> Seq<Seq<char>> {
    msg_if(b.status is None, "status is required"@)
}

/// Whether `n` is the record that the complete builder `b` gives.
pub open spec fn equipment_registration_record(b: EquipmentRegistrationBuilder, n: NewEquipmentRegistration) -> bool {
    &&& n.equipmentid == b.equipmentid
    &&& n.tournamentid == b.tournamentid
    &&& n.roomid == b.roomid
    &&& b.status == Some(n.status)
}

impl EquipmentRegistrationBuilder {
    /// A builder for equipment `equipmentid` at tournament `tournamentid` with nothing else given.
    pub fn new(equipmentid: i64, tournamentid: u128) -> (r: Self)
        ensures
            r.equipmentid == equipmentid,
            r.tournamentid == tournamentid,
            r.roomid is None,
            r.status is None,
    {
        EquipmentRegistrationBuilder {
            equipmentid: equipmentid,
            tournamentid: tournamentid,
            roomid: None,
            status: None,
        }
    }

    /// A builder for equipment received from its owner.
    pub fn new_default(equipmentid: i64, tournamentid: u128) -> (r: Self)
        ensures
            r.equipmentid == equipmentid,
            r.tournamentid == tournamentid,
            r.roomid is None,
            r.status matches Some(s) && s@ == "Received from Owner"@,
    {
        EquipmentRegistrationBuilder {
            equipmentid: equipmentid,
            tournamentid: tournamentid,
            roomid: None,
            status: Some(String::from_str("Received from Owner")),
        }
    }

    pub fn set_name(self, equipmentid: i64) -> (r: Self)
        ensures
            r == (EquipmentRegistrationBuilder { equipmentid: equipmentid, ..self }),
    {
        EquipmentRegistrationBuilder { equipmentid: equipmentid, ..self }
    }

    pub fn set_tournamentid(self, tournamentid: u128) -> (r: Self)
        ensures
            r == (EquipmentRegistrationBuilder { tournamentid: tournamentid, ..self }),
    {
        EquipmentRegistrationBuilder { tournamentid: tournamentid, ..self }
    }

    pub fn set_roomid(self, roomid: Option<u128>) -> (r: Self)
        ensures
            r == (EquipmentRegistrationBuilder { roomid: roomid, ..self }),
    {
        EquipmentRegistrationBuilder { roomid: roomid, ..self }
    }

    pub fn set_status(self, status: Option<String>) -> (r: Self)
        ensures
            r == (EquipmentRegistrationBuilder { status: status, ..self }),
    {
        EquipmentRegistrationBuilder { status: status, ..self }
    }

    /// `Ok` when every required field is given, else a message for each one missing.
    fn validate_all_are_some(&self) -> (r: Result<(), Vec<String>>)
        ensures
            r is Ok <==> equipment_registration_missing(*self).len() == 0,
            r matches Err(v) ==> texts(v@) == equipment_registration_missing(*self),
    {
        let mut errors: Vec<String> = Vec::new();
        push_missing(&mut errors, self.status.is_none(), "status is required");
        proof {
            assert(texts(errors@) =~= equipment_registration_missing(*self));
        }
        if errors.len() > 0 {
            Err(errors)
        } else {
            Ok(())
        }
    }

    /// The record, or a message for each required field missing.
    pub fn build(self) -> (r: Result<NewEquipmentRegistration, Vec<String>>)
        ensures
            r is Ok <==> equipment_registration_missing(self).len() == 0,
            r matches Ok(n) ==> equipment_registration_record(self, n),
            r matches Err(v) ==> texts(v@) == equipment_registration_missing(self),
    {
        match self.validate_all_are_some() {
            Err(e) => Err(e),
            Ok(()) => {
                let status = match self.status { Some(x) => x, None => String::new() };
                Ok(NewEquipmentRegistration {
                    equipmentid: self.equipmentid,
                    tournamentid: self.tournamentid,
                    roomid: self.roomid,
                    status: status,
                })
            },
        }
    }
}

} // verus!
