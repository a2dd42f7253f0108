//! The equipment record that every piece of gear has: which kind it is (exactly one kind id
//! given), its set, its note, and who made and last changed it.
use vstd::prelude::*;
use crate::models::common::{last_value, name_of, name_or_id, name_or_id_text};
use crate::models::equipment::Equipment;
use crate::clock::nil_id;
use crate::gameevent::event::{msg_if, texts};
use crate::models::common::push_missing;

verus! {

/// Collects an equipment record's fields (user ids as 128-bit integers).
pub struct EquipmentDboBuilder {
    pub computerid: Option<i64>,
    pub jumppadid: Option<i64>,
    pub interfaceboxid: Option<i64>,
    pub monitorid: Option<i64>,
    pub microphonerecorderid: Option<i64>,
    pub projectorid: Option<i64>,
    pub powerstripid: Option<i64>,
    pub extensioncordid: Option<i64>,
    pub misc_note: Option<String>,
    pub equipmentsetid: Option<i64>,
    pub creator_id: Option<u128>,
    pub last_modified_user: Option<u128>,
}

/// An equipment record to insert; who made and last changed it is the nil id when not given.
pub struct NewEquipmentDbo {
    pub computerid: Option<i64>,
    pub jumppadid: Option<i64>,
    pub interfaceboxid: Option<i64>,
    pub monitorid: Option<i64>,
    pub microphonerecorderid: Option<i64>,
    pub projectorid: Option<i64>,
    pub powerstripid: Option<i64>,
    pub extensioncordid: Option<i64>,
    pub misc_note: Option<String>,
    pub equipmentsetid: i64,
    pub creator_id: u128,
    pub last_modified_user: u128,
}

/// 1 when the id is given, else 0.
pub open spec fn given(x: Option<i64>) -> int {
    if x is Some { 1 } else { 0 }
}

/// How many kind ids are given.
pub open spec fn kind_count(b: EquipmentDboBuilder) -> int {
    given(b.computerid) + given(b.jumppadid) + given(b.interfaceboxid) + given(b.monitorid)
        + given(b.microphonerecorderid) + given(b.projectorid) + given(b.powerstripid) + given(b.extensioncordid)
}

/// What is wrong with a builder: other than exactly one kind id, and no set.
pub open spec fn equipment_dbo_missing(b: EquipmentDboBuilder) -> Seq<Seq<char>> {
    msg_if(kind_count(b) != 1, "exactly one equipment type ID is required"@)
        + msg_if(b.equipmentsetid is None, "equipmentsetid is required"@)
}

/// Whether `n` is the record that the complete builder `b` gives.
pub open spec fn equipment_dbo_record(b: EquipmentDboBuilder, n: NewEquipmentDbo) -> bool {
    &&& n.computerid == b.computerid
    &&& n.jumppadid == b.jumppadid
    &&& n.interfaceboxid == b.interfaceboxid
    &&& n.monitorid == b.monitorid
    &&& n.microphonerecorderid == b.microphonerecorderid
    &&& n.projectorid == b.projectorid
    &&& n.powerstripid == b.powerstripid
    &&& n.extensioncordid == b.extensioncordid
    &&& n.misc_note == b.misc_note
    &&& b.equipmentsetid == Some(n.equipmentsetid)
    &&& n.creator_id == (match b.creator_id { Some(x) => x, None => 0 })
    &&& n.last_modified_user == (match b.last_modified_user { Some(x) => x, None => 0 })
}

fn one_if(x: &Option<i64>) -> (r: u32)
    ensures
        r == given(*x),
{
    if x.is_some() { 1 } else { 0 }
}

impl EquipmentDboBuilder {
    /// A builder with nothing given.
    pub fn new() -> (r: Self)
        ensures
            r.computerid is None && r.jumppadid is None && r.interfaceboxid is None && r.monitorid is None,
            r.microphonerecorderid is None && r.projectorid is None && r.powerstripid is None,
            r.extensioncordid is None && r.misc_note is None && r.equipmentsetid is None,
            r.creator_id is None && r.last_modified_user is None,
    {
        EquipmentDboBuilder {
            computerid: None,
            jumppadid: None,
            interfaceboxid: None,
            monitorid: None,
            microphonerecorderid: None,
            projectorid: None,
            powerstripid: None,
            extensioncordid: None,
            misc_note: None,
            equipmentsetid: None,
            creator_id: None,
            last_modified_user: None,
        }
    }

    /// A builder with an empty note and nothing else given.
    pub fn new_default() -> (r: Self)
        ensures
            r.computerid is None && r.jumppadid is None && r.interfaceboxid is None && r.monitorid is None,
            r.microphonerecorderid is None && r.projectorid is None && r.powerstripid is None,
            r.extensioncordid is None && r.equipmentsetid is None,
            r.misc_note matches Some(s) && s@ == Seq::<char>::empty(),
            r.creator_id is None && r.last_modified_user is None,
    {
        EquipmentDboBuilder { misc_note: Some(String::new()), ..EquipmentDboBuilder::new() }
    }

    pub fn set_computerid(self, computerid: Option<i64>) -> (r: Self)
        ensures r == (EquipmentDboBuilder { computerid, ..self }),
    {
        EquipmentDboBuilder { computerid, ..self }
    }

    pub fn set_jumppadid(self, jumppadid: Option<i64>) -> (r: Self)
        ensures r == (EquipmentDboBuilder { jumppadid, ..self }),
    {
        EquipmentDboBuilder { jumppadid, ..self }
    }

    pub fn set_interfaceboxid(self, interfaceboxid: Option<i64>) -> (r: Self)
        ensures r == (EquipmentDboBuilder { interfaceboxid, ..self }),
    {
        EquipmentDboBuilder { interfaceboxid, ..self }
    }

    pub fn set_monitorid(self, monitorid: Option<i64>) -> (r: Self)
        ensures r == (EquipmentDboBuilder { monitorid, ..self }),
    {
        EquipmentDboBuilder { monitorid, ..self }
    }

    pub fn set_microphonerecorderid(self, microphonerecorderid: Option<i64>) -> (r: Self)
        ensures r == (EquipmentDboBuilder { microphonerecorderid, ..self }),
    {
        EquipmentDboBuilder { microphonerecorderid, ..self }
    }

    pub fn set_projectorid(self, projectorid: Option<i64>) -> (r: Self)
        ensures r == (EquipmentDboBuilder { projectorid, ..self }),
    {
        EquipmentDboBuilder { projectorid, ..self }
    }

    pub fn set_powerstripid(self, powerstripid: Option<i64>) -> (r: Self)
        ensures r == (EquipmentDboBuilder { powerstripid, ..self }),
    {
        EquipmentDboBuilder { powerstripid, ..self }
    }

    pub fn set_extensioncordid(self, extensioncordid: Option<i64>) -> (r: Self)
        ensures r == (EquipmentDboBuilder { extensioncordid, ..self }),
    {
        EquipmentDboBuilder { extensioncordid, ..self }
    }

    pub fn set_misc_note(self, misc_note: Option<String>) -> (r: Self)
        ensures r == (EquipmentDboBuilder { misc_note, ..self }),
    {
        EquipmentDboBuilder { misc_note, ..self }
    }

    pub fn set_creator_id(self, user_id: u128) -> (r: Self)
        ensures r == (EquipmentDboBuilder { creator_id: Some(user_id), ..self }),
    {
        EquipmentDboBuilder { creator_id: Some(user_id), ..self }
    }

    pub fn set_last_modified_user(self, user_id: u128) -> (r: Self)
        ensures r == (EquipmentDboBuilder { last_modified_user: Some(user_id), ..self }),
    {
        EquipmentDboBuilder { last_modified_user: Some(user_id), ..self }
    }

    pub fn set_equipmentsetid(self, equipmentsetid: Option<i64>) -> (r: Self)
        ensures r == (EquipmentDboBuilder { equipmentsetid, ..self }),
    {
        EquipmentDboBuilder { equipmentsetid, ..self }
    }

    /// `Ok` when exactly one kind id and the set are given, else what is wrong.
    fn validate(&self) -> (r: Result<(), Vec<String>>)
        ensures
            r is Ok <==> equipment_dbo_missing(*self).len() == 0,
            r matches Err(v) ==> texts(v@) == equipment_dbo_missing(*self),
    {
        let count = one_if(&self.computerid) + one_if(&self.jumppadid) + one_if(&self.interfaceboxid)
            + one_if(&self.monitorid) + one_if(&self.microphonerecorderid) + one_if(&self.projectorid)
            + one_if(&self.powerstripid) + one_if(&self.extensioncordid);
        let mut errors: Vec<String> = Vec::new();
        push_missing(&mut errors, count != 1, "exactly one equipment type ID is required");
        push_missing(&mut errors, self.equipmentsetid.is_none(), "equipmentsetid is required");
        proof {
            assert(texts(errors@) =~= equipment_dbo_missing(*self));
        }
        if errors.len() > 0 {
            Err(errors)
        } else {
            Ok(())
        }
    }

    /// The record, or what is wrong with the builder.
    pub fn build(self) -> (r: Result<NewEquipmentDbo, Vec<String>>)
        ensures
            r is Ok <==> equipment_dbo_missing(self).len() == 0,
            r matches Ok(n) ==> equipment_dbo_record(self, n),
            r matches Err(v) ==> texts(v@) == equipment_dbo_missing(self),
    {
        match self.validate() {
            Err(e) => Err(e),
            Ok(()) => Ok(NewEquipmentDbo {
                computerid: self.computerid,
                jumppadid: self.jumppadid,
                interfaceboxid: self.interfaceboxid,
                monitorid: self.monitorid,
                microphonerecorderid: self.microphonerecorderid,
                projectorid: self.projectorid,
                powerstripid: self.powerstripid,
                extensioncordid: self.extensioncordid,
                misc_note: self.misc_note,
                equipmentsetid: match self.equipmentsetid { Some(x) => x, None => 0 },
                creator_id: match self.creator_id { Some(x) => x, None => nil_id() },
                last_modified_user: match self.last_modified_user { Some(x) => x, None => nil_id() },
            }),
        }
    }
}


/// The name of a record's kind: that of the first kind id given, or "Unknown".
pub open spec fn gear_type_text(k: EquipmentDbo) -> Seq<char> {
    if k.computerid is Some { "Computer"@ }
    else if k.jumppadid is Some { "Jump Pad"@ }
    else if k.interfaceboxid is Some { "Interface Box"@ }
    else if k.monitorid is Some { "Monitor"@ }
    else if k.microphonerecorderid is Some { "Microphone Recorder"@ }
    else if k.projectorid is Some { "Projector"@ }
    else if k.powerstripid is Some { "Power Strip"@ }
    else if k.extensioncordid is Some { "Extension Cord"@ }
    else { "Unknown"@ }
}

/// The name of a record's kind.
pub fn gear_type_of(item: &EquipmentDbo) -> (r: String)
    ensures
        r@ == gear_type_text(*item),
{
    String::from_str(
        if item.computerid.is_some() { "Computer" }
        else if item.jumppadid.is_some() { "Jump Pad" }
        else if item.interfaceboxid.is_some() { "Interface Box" }
        else if item.monitorid.is_some() { "Monitor" }
        else if item.microphonerecorderid.is_some() { "Microphone Recorder" }
        else if item.projectorid.is_some() { "Projector" }
        else if item.powerstripid.is_some() { "Power Strip" }
        else if item.extensioncordid.is_some() { "Extension Cord" }
        else { "Unknown" },
    )
}

/// A stored equipment record: its id, the id of the one kind of gear it is, its note, when it
/// was written (microseconds), its set, and who made and last changed it.
pub struct EquipmentDbo {
    pub id: i64,
    pub computerid: Option<i64>,
    pub jumppadid: Option<i64>,
    pub interfaceboxid: Option<i64>,
    pub monitorid: Option<i64>,
    pub microphonerecorderid: Option<i64>,
    pub projectorid: Option<i64>,
    pub powerstripid: Option<i64>,
    pub extensioncordid: Option<i64>,
    pub misc_note: Option<String>,
    pub created_at: i64,
    pub updated_at: i64,
    pub equipmentsetid: i64,
    pub creator_id: u128,
    pub last_modified_user: u128,
}

/// The changes to an equipment record: `None` leaves a field as it is.
pub struct EquipmentDboChangeset {
    pub misc_note: Option<String>,
    pub equipmentsetid: Option<i64>,
}

/// One row of a user's gear table: the equipment record with its kind, its set's name, its
/// creator's and last modifier's names, and the gear itself when it could be read.
pub struct UserGearRow {
    pub id: i64,
    pub gear_type: String,
    pub equipmentsetid: i64,
    pub set_name: String,
    pub misc_note: Option<String>,
    pub detail: Option<Equipment>,
    pub created_at: i64,
    pub updated_at: i64,
    pub creator_id: u128,
    pub creator_name: String,
    pub last_modified_user_id: u128,
    pub last_modified_user_name: String,
}

/// Whether `row` is the row of equipment record `e` with gear `detail`: its kind's name, its
/// set's name by id (the empty text when not found), and its creator's and last modifier's
/// names by id (the id's text for a user without one).
pub open spec fn gear_row_of(
    row: UserGearRow,
    e: EquipmentDbo,
    detail: Option<Equipment>,
    set_names: Seq<(i64, String)>,
    user_names: Seq<(u128, String)>,
) -> bool {
    &&& row.id == e.id
    &&& row.gear_type@ == gear_type_text(e)
    &&& row.equipmentsetid == e.equipmentsetid
    &&& row.set_name@ == set_name_or_empty(set_names, e.equipmentsetid)
    &&& row.misc_note == e.misc_note
    &&& row.detail == detail
    &&& row.created_at == e.created_at
    &&& row.updated_at == e.updated_at
    &&& row.creator_id == e.creator_id
    &&& row.creator_name@ == name_or_id(last_value(user_names, e.creator_id), e.creator_id)
    &&& row.last_modified_user_id == e.last_modified_user
    &&& row.last_modified_user_name@ == name_or_id(last_value(user_names, e.last_modified_user), e.last_modified_user)
}

/// The name stored last for set `k`, or the empty text.
pub open spec fn set_name_or_empty(set_names: Seq<(i64, String)>, k: i64) -> Seq<char>
    decreases set_names.len(),
{
    if set_names.len() == 0 {
        seq![]
    } else if set_names.last().0 == k {
        set_names.last().1@
    } else {
        set_name_or_empty(set_names.drop_last(), k)
    }
}

fn set_name_text(set_names: &Vec<(i64, String)>, k: i64) -> (r: String)
    ensures
        r@ == set_name_or_empty(set_names@, k),
{
    let mut i: usize = set_names.len();
    proof {
        assert(set_names@.take(set_names@.len() as int) =~= set_names@);
    }
    while i > 0
        invariant
            i <= set_names@.len(),
            set_name_or_empty(set_names@, k) == set_name_or_empty(set_names@.take(i as int), k),
        decreases i,
    {
        proof {
            assert(set_names@.take(i as int).last() == set_names@[i - 1]);
            assert(set_names@.take(i as int).drop_last() =~= set_names@.take(i - 1));
        }
        if set_names[i - 1].0 == k {
            return set_names[i - 1].1.clone();
        }
        i = i - 1;
    }
    String::new()
}

/// The rows of a page of a user's gear: `details[i]` is the gear of `list[i]` when it could be
/// read; `set_names` names the user's equipment sets and `user_names` the users, by id.
pub fn gear_rows(
    list: Vec<EquipmentDbo>,
    details: Vec<Option<Equipment>>,
    set_names: &Vec<(i64, String)>,
    user_names: &Vec<(u128, String)>,
) -> (r: Vec<UserGearRow>)
    requires
        details@.len() == list@.len(),
    ensures
        r@.len() == list@.len(),
        forall|i: int| 0 <= i < r@.len() ==> gear_row_of(#[trigger] r@[i], list@[i], details@[i], set_names@, user_names@),
{
    let ghost list0 = list@;
    let ghost details0 = details@;
    let mut list = list;
    let mut details = details;
    let mut rows: Vec<UserGearRow> = Vec::new();
    while list.len() > 0
        invariant
            list@.len() == details@.len(),
            rows@.len() + list@.len() == list0.len(),
            list@ == list0.subrange(rows@.len() as int, list0.len() as int),
            details@ == details0.subrange(rows@.len() as int, details0.len() as int),
            details0.len() == list0.len(),
            forall|k: int| 0 <= k < rows@.len() ==> gear_row_of(#[trigger] rows@[k], list0[k], details0[k], set_names@, user_names@),
        decreases list@.len(),
    {
        let e = list.remove(0);
        let detail = details.remove(0);
        let row = UserGearRow {
            id: e.id,
            gear_type: gear_type_of(&e),
            equipmentsetid: e.equipmentsetid,
            set_name: set_name_text(set_names, e.equipmentsetid),
            misc_note: e.misc_note,
            detail,
            created_at: e.created_at,
            updated_at: e.updated_at,
            creator_id: e.creator_id,
            creator_name: name_or_id_text(name_of(user_names, e.creator_id), e.creator_id),
            last_modified_user_id: e.last_modified_user,
            last_modified_user_name: name_or_id_text(name_of(user_names, e.last_modified_user), e.last_modified_user),
        };
        rows.push(row);
        proof {
            assert(list@ =~= list0.subrange(rows@.len() as int, list0.len() as int));
            assert(details@ =~= details0.subrange(rows@.len() as int, details0.len() as int));
        }
    }
    rows
}

} // verus!
