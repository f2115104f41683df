//! Game rules of the marble-run sandbox: spawn gates, splitters, timers,
//! the editor's state machine, the camera's focus rule and the map files.

pub mod ball;
pub mod gate_splitter;
pub mod gate_generic;
pub mod gate_countdown;
pub mod spawn_timer;
pub mod shredder;
pub mod decimal;
pub mod zunda_counter;
pub mod random;
pub mod map_file;
pub mod edit_context;
pub mod camera;
pub mod motion;
