//! A piece of gear of any kind, with the fields of its equipment record; which kind an
//! equipment record is, and the messages when its gear cannot be read.
use vstd::prelude::*;
use crate::models::computer::Computer;
use crate::models::equipment_dbo::EquipmentDbo;
use crate::models::extensioncord::ExtensionCord;
use crate::models::interfacebox::InterfaceBox;
use crate::models::jumppad::JumpPad;
use crate::models::microphonerecorder::MicrophoneRecorder;
use crate::models::monitor::Monitor;
use crate::models::powerstrip::PowerStrip;
use crate::models::projector::Projector;
use crate::text::{int_text, int_to_text, join2};

verus! {

/// A piece of gear: one of the kinds an equipment record can be.
pub enum Equipment {
    Computer(Computer),
    JumpPad(JumpPad),
    InterfaceBox(InterfaceBox),
    Monitor(Monitor),
    MicrophoneRecorder(MicrophoneRecorder),
    Projector(Projector),
    PowerStrip(PowerStrip),
    ExtensionCord(ExtensionCord),
}

/// The kinds of gear, in the order a record's kind ids are read.
#[derive(Debug, Clone, Copy, PartialEq, Eq, Structural)]
pub enum GearKind {
    Computer,
    JumpPad,
    InterfaceBox,
    Monitor,
    MicrophoneRecorder,
    Projector,
    PowerStrip,
    ExtensionCord,
}

/// The kind of gear an equipment record is, and the id of its gear: the first kind id given,
/// in the order computer, jump pad, interface box, monitor, microphone recorder, projector,
/// power strip, extension cord; `None` when none is given.
pub open spec fn gear_of(e: EquipmentDbo) -> Option<(GearKind, i64)> {
    if e.computerid is Some { Some((GearKind::Computer, e.computerid.unwrap())) }
    else if e.jumppadid is Some { Some((GearKind::JumpPad, e.jumppadid.unwrap())) }
    else if e.interfaceboxid is Some { Some((GearKind::InterfaceBox, e.interfaceboxid.unwrap())) }
    else if e.monitorid is Some { Some((GearKind::Monitor, e.monitorid.unwrap())) }
    else if e.microphonerecorderid is Some { Some((GearKind::MicrophoneRecorder, e.microphonerecorderid.unwrap())) }
    else if e.projectorid is Some { Some((GearKind::Projector, e.projectorid.unwrap())) }
    else if e.powerstripid is Some { Some((GearKind::PowerStrip, e.powerstripid.unwrap())) }
    else if e.extensioncordid is Some { Some((GearKind::ExtensionCord, e.extensioncordid.unwrap())) }
    else { None }
}

/// The kind of gear a record is, and the id of its gear.
pub fn gear_of_record(e: &EquipmentDbo) -> (r: Option<(GearKind, i64)>)
    ensures
        r == gear_of(*e),
{
    if let Some(id) = e.computerid { Some((GearKind::Computer, id)) }
    else if let Some(id) = e.jumppadid { Some((GearKind::JumpPad, id)) }
    else if let Some(id) = e.interfaceboxid { Some((GearKind::InterfaceBox, id)) }
    else if let Some(id) = e.monitorid { Some((GearKind::Monitor, id)) }
    else if let Some(id) = e.microphonerecorderid { Some((GearKind::MicrophoneRecorder, id)) }
    else if let Some(id) = e.projectorid { Some((GearKind::Projector, id)) }
    else if let Some(id) = e.powerstripid { Some((GearKind::PowerStrip, id)) }
    else if let Some(id) = e.extensioncordid { Some((GearKind::ExtensionCord, id)) }
    else { None }
}

/// The name of a kind in messages.
pub open spec fn kind_name(k: GearKind) -> Seq<char> {
    match k {
        GearKind::Computer => "Computer"@,
        GearKind::JumpPad => "JumpPad"@,
        GearKind::InterfaceBox => "InterfaceBox"@,
        GearKind::Monitor => "Monitor"@,
        GearKind::MicrophoneRecorder => "MicrophoneRecorder"@,
        GearKind::Projector => "Projector"@,
        GearKind::PowerStrip => "PowerStrip"@,
        GearKind::ExtensionCord => "ExtensionCord"@,
    }
}

fn kind_name_text(k: GearKind) -> (r: &'static str)
    ensures
        r@ == kind_name(k),
{
    match k {
        GearKind::Computer => "Computer",
        GearKind::JumpPad => "JumpPad",
        GearKind::InterfaceBox => "InterfaceBox",
        GearKind::Monitor => "Monitor",
        GearKind::MicrophoneRecorder => "MicrophoneRecorder",
        GearKind::Projector => "Projector",
        GearKind::PowerStrip => "PowerStrip",
        GearKind::ExtensionCord => "ExtensionCord",
    }
}

/// The message when a record names gear of kind `k` with id `id` that does not exist:
/// "Error: <kind> with ID <id> does not exist".
pub fn missing_gear_message(k: GearKind, id: i64) -> (m: String)
    ensures
        m@ == "Error: "@ + kind_name(k) + " with ID "@ + int_text(id as int) + " does not exist"@,
{
    let m = join2("Error: ", kind_name_text(k));
    let m = m.concat(" with ID ");
    let n = int_to_text(id);
    let m = m.concat(n.as_str());
    m.concat(" does not exist")
}

/// The message when equipment record `equipment_id` names no gear:
/// "Error: Could not find Equipment with ID <id>".
pub fn no_gear_message(equipment_id: i64) -> (m: String)
    ensures
        m@ == "Error: Could not find Equipment with ID "@ + int_text(equipment_id as int),
{
    let n = int_to_text(equipment_id);
    join2("Error: Could not find Equipment with ID ", n.as_str())
}

} // verus!
