//! Verified decision logic of the Solarity client runtime.

pub mod archive_job;
pub mod area_triggers;
pub mod camera_profile;
pub mod character_directory;
pub mod cinematic;
pub mod developer_console;
pub mod entity_opacity;
pub mod environment;
pub mod frame_profile;
pub mod frame_wait;
pub mod game_object;
pub mod game_object_behavior;
pub mod game_object_instances;
pub mod gameplay;
pub mod input_routing;
pub mod glue;
pub mod glue_frames;
pub mod glue_session;
pub mod glue_texture_prewarm;
pub mod loading_screens;
pub mod model_cache;
pub mod presentation;
pub mod retirement;
pub mod search;
pub mod startup_effects;
pub mod text;
pub mod transport;
pub mod version;
pub mod world_benchmark;
pub mod world_transfer;
