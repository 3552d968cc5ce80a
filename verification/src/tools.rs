pub mod lights;
pub mod scene_commands;
pub mod scene_laws;
pub mod scene_run;
pub mod zigbee;
pub mod transit;
pub mod weather;
