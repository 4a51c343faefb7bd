//! Decision logic of a jump-flood signed-distance-field renderer: the
//! ping-pong texture pair, the jump-flood step schedule, the single-entry
//! bind group caches, texture sizing and the fullscreen sprite toggle.
pub mod bind_group_cache;
pub mod distance_field;
pub mod fullscreen_sprite;
pub mod ping_pong;
pub mod textures;
