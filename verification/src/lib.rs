//! Heat City game rules: economy, police heat, safehouses, businesses, crew
//! and the other integer-valued systems of the city simulation.

pub mod economy;
pub mod ids;
pub mod police;
pub mod safehouses;
pub mod businesses;
pub mod crew;
pub mod heists;
pub mod combat;
pub mod director;
pub mod events;
pub mod news;
pub mod rivals;
pub mod factions;
pub mod missions;
pub mod dialog;
pub mod ui;
pub mod audio;
pub mod world;
pub mod text;
pub mod engine;
pub mod input;
pub mod save;
pub mod sprites;
pub mod render;
