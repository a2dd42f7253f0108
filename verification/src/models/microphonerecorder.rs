//! Microphone recorders of an equipment set, and the builder of their records.
use vstd::prelude::*;
use crate::models::equipment_dbo::{EquipmentDbo, EquipmentDboChangeset};
use crate::models::common::copy_text;
use crate::gameevent::event::{msg_if, texts};
use crate::models::common::push_missing;

verus! {

/// Collects a microphone recorder's fields and checks that the required ones are given.
pub struct MicrophoneRecorderBuilder {
    pub type_: Option<String>,
    pub equipmentsetid: i64,
    pub misc_note: Option<String>,
}

/// A microphone recorder record to insert.
pub struct NewMicrophoneRecorder {
    pub type_: String,
    pub equipmentsetid: i64,
    pub misc_note: Option<String>,
}

/// The missing required fields, in the order they are checked.
pub open spec fn microphone_recorder_missing(b: MicrophoneRecorderBuilder) -> Seq<Seq<char>> {
    msg_if(b.type_ is None, "type_ is required"@)
}

/// Whether `n` is the record that the complete builder `b` gives.
pub open spec fn microphone_recorder_record(b: MicrophoneRecorderBuilder, n: NewMicrophoneRecorder) -> bool {
    &&& b.type_ == Some(n.type_)
    &&& n.equipmentsetid == b.equipmentsetid
    &&& n.misc_note == b.misc_note
}

impl MicrophoneRecorderBuilder {
    /// A builder for equipment set `equipmentsetid` with nothing else given.
    pub fn new(equipmentsetid: i64) -> (r: Self)
        ensures
            r.type_ is None,
            r.equipmentsetid == equipmentsetid,
            r.misc_note is None,
    {
        MicrophoneRecorderBuilder {
            type_: None,
            equipmentsetid: equipmentsetid,
            misc_note: None,
        }
    }

    /// A builder for equipment set `equipmentsetid` with the usual defaults.
    pub fn new_default(equipmentsetid: i64) -> (r: Self)
        ensures
            r.type_ is None,
            r.equipmentsetid == equipmentsetid,
            r.misc_note matches Some(s) && s@ == Seq::<char>::empty(),
    {
        MicrophoneRecorderBuilder {
            type_: None,
            equipmentsetid: equipmentsetid,
            misc_note: Some(String::new()),
        }
    }

    pub fn set_type_(self, type_: Option<String>) -> (r: Self)
        ensures
            r == (MicrophoneRecorderBuilder { type_: type_, ..self }),
    {
        MicrophoneRecorderBuilder { type_: type_, ..self }
    }

    pub fn set_equipmentsetid(self, equipmentsetid: i64) -> (r: Self)
        ensures
            r == (MicrophoneRecorderBuilder { equipmentsetid: equipmentsetid, ..self }),
    {
        MicrophoneRecorderBuilder { equipmentsetid: equipmentsetid, ..self }
    }

    pub fn set_misc_note(self, misc_note: Option<String>) -> (r: Self)
        ensures
            r == (MicrophoneRecorderBuilder { misc_note: misc_note, ..self }),
    {
        MicrophoneRecorderBuilder { misc_note: misc_note, ..self }
    }

    /// `Ok` when every required field is given, else a message for each one missing.
    fn validate(&self) -> (r: Result<(), Vec<String>>)
        ensures
            r is Ok <==> microphone_recorder_missing(*self).len() == 0,
            r matches Err(v) ==> texts(v@) == microphone_recorder_missing(*self),
    {
        let mut errors: Vec<String> = Vec::new();
        push_missing(&mut errors, self.type_.is_none(), "type_ is required");
        proof {
            assert(texts(errors@) =~= microphone_recorder_missing(*self));
        }
        if errors.len() > 0 {
            Err(errors)
        } else {
            Ok(())
        }
    }

    /// The record, or a message for each required field missing.
    pub fn build(self) -> (r: Result<NewMicrophoneRecorder, Vec<String>>)
        ensures
            r is Ok <==> microphone_recorder_missing(self).len() == 0,
            r matches Ok(n) ==> microphone_recorder_record(self, n),
            r matches Err(v) ==> texts(v@) == microphone_recorder_missing(self),
    {
        match self.validate() {
            Err(e) => Err(e),
            Ok(()) => {
                let type_ = match self.type_ { Some(x) => x, None => String::new() };
                Ok(NewMicrophoneRecorder {
                    type_: type_,
                    equipmentsetid: self.equipmentsetid,
                    misc_note: self.misc_note,
                })
            },
        }
    }
}

/// A stored microphone recorder row: its own id and fields, and when it was written (microseconds).
pub struct MicrophoneRecorderDbo {
    pub id: i64,
    pub type_: String,
    pub created_at: i64,
    pub updated_at: i64,
}

/// A microphone recorder together with the fields of its equipment record.
pub struct MicrophoneRecorder {
    pub id: i64,
    pub type_: String,
    pub equipmentid: i64,
    pub equipmentsetid: i64,
    pub misc_note: Option<String>,
    pub created_at: i64,
    pub updated_at: i64,
}

/// The microphone recorder row to insert.
pub struct NewMicrophoneRecorderDbo {
    pub type_: String,
}

/// The changes to a stored microphone recorder row: `None` leaves a field as it is.
pub struct MicrophoneRecorderDboChangeset {
    pub type_: String,
}

/// The changes to a microphone recorder and its equipment record: `None` leaves a field as it is.
pub struct MicrophoneRecorderChangeSet {
    pub type_: String,
    pub equipmentsetid: Option<i64>,
    pub misc_note: Option<String>,
}

impl MicrophoneRecorderDbo {
    /// The microphone recorder that this row and its equipment record describe; the times are the row's own.
    pub fn to_model(&self, equipment_dbo: EquipmentDbo) -> (r: MicrophoneRecorder)
        ensures
            r.id == self.id,
            r.type_ == self.type_,
            r.equipmentid == equipment_dbo.id,
            r.equipmentsetid == equipment_dbo.equipmentsetid,
            r.misc_note == equipment_dbo.misc_note,
            r.created_at == self.created_at,
            r.updated_at == self.updated_at,
    {
        MicrophoneRecorder {
            id: self.id,
            type_: self.type_.clone(),
            equipmentid: equipment_dbo.id,
            equipmentsetid: equipment_dbo.equipmentsetid,
            misc_note: equipment_dbo.misc_note,
            created_at: self.created_at,
            updated_at: self.updated_at,
        }
    }
}

impl NewMicrophoneRecorder {
    /// The microphone recorder row to insert for this record: its own fields, without the equipment record's.
    pub fn to_dbo(&self) -> (r: NewMicrophoneRecorderDbo)
        ensures
            r.type_ == self.type_,
    {
        NewMicrophoneRecorderDbo {
            type_: self.type_.clone(),
        }
    }
}

impl MicrophoneRecorderChangeSet {
    /// The changes split in two: those to the microphone recorder row, and those to its equipment record.
    pub fn to_dbos(&self) -> (r: (MicrophoneRecorderDboChangeset, EquipmentDboChangeset))
        ensures
            r.0.type_ == self.type_,
            r.1.misc_note == self.misc_note,
            r.1.equipmentsetid == self.equipmentsetid,
    {
        (
            MicrophoneRecorderDboChangeset {
                type_: self.type_.clone(),
            },
            EquipmentDboChangeset { misc_note: copy_text(&self.misc_note), equipmentsetid: self.equipmentsetid },
        )
    }
}

/// The microphone recorder that a row and its equipment record describe; the times are the equipment record's.
pub fn covert_to_model_from_dbos(microphonerecorder_dbo: MicrophoneRecorderDbo, equipment_dbo: EquipmentDbo) -> (r: MicrophoneRecorder)
    ensures
        r.id == microphonerecorder_dbo.id,
        r.type_ == microphonerecorder_dbo.type_,
        r.equipmentid == equipment_dbo.id,
        r.equipmentsetid == equipment_dbo.equipmentsetid,
        r.misc_note == equipment_dbo.misc_note,
        r.created_at == equipment_dbo.created_at,
        r.updated_at == equipment_dbo.updated_at,
{
    MicrophoneRecorder {
        id: microphonerecorder_dbo.id,
        type_: microphonerecorder_dbo.type_,
        equipmentid: equipment_dbo.id,
        equipmentsetid: equipment_dbo.equipmentsetid,
        misc_note: equipment_dbo.misc_note,
        created_at: equipment_dbo.created_at,
        updated_at: equipment_dbo.updated_at,
    }
}

} // verus!
