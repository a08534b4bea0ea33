//! A small arcade-style vertical shoot-'em-up simulation core.
//!
//! The crate models the entity and combat state of the game — weapons with
//! cooldowns, projectiles, the player controller, enemy entrance paths, the
//! distance-driven spawn director and the health lifecycle — as an explicit
//! world value stepped once per frame. Rendering, windowing, input polling
//! and asset handling belong to a host shell and are not modelled here.
//!
//! All quantities are fixed-point integers with [`fx::FX_ONE`] subunits per
//! unit (pixel, second or hit point); arithmetic saturates at the `i64`
//! bounds instead of wrapping.

pub mod enemy_systems;
pub mod fx;
pub mod game_systems;
pub mod gun_systems;
pub mod health_systems;
pub mod laser_systems;
pub mod map_systems;
pub mod player_systems;
pub mod util;
pub mod world;
