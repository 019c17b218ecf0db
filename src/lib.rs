//! Client-side core of a maze explorer: the wire transcoding of the maze
//! API's payloads, the exploration state machine, the request coordinator
//! and the notification queue.

pub mod coordinate;
pub mod keydown;
pub mod model;
pub mod notifications;
pub mod pathbot_api;
pub mod state;
pub mod wire;
