//! The records of the service and their builders.

pub mod common;
pub mod game;
pub mod gameevent_import;
pub mod import_spec;
pub mod permission;
pub mod role;
pub mod tournament;
pub mod computer;
pub mod monitor;
pub mod projector;
pub mod powerstrip;
pub mod extensioncord;
pub mod interfacebox;
pub mod jumppad;
pub mod microphonerecorder;
pub mod equipmentset;
pub mod equipmentregistration;
pub mod division;
pub mod division_session;
pub mod poolbracketgroup;
pub mod pool_bracket;
pub mod game_statsgroup;
pub mod equipment;
pub mod equipment_dbo;
pub mod create_tournament_applicant;
pub mod role_permission;
