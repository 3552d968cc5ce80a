//! Home automation tools: Zigbee light scenes, transit and weather queries,
//! and the access rules of the small light-control web server.

pub mod app_error;
pub mod text;
pub mod tmp_light_api;
pub mod tools;
