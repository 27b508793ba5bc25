//! A minimal real-time tower-defense simulation: one tower shoots bullets
//! at enemies that home in on it, kills earn score and currency, currency
//! buys damage and fire-rate upgrades, and an economy snapshot mirrors the
//! live state for persistence.
//!
//! All geometry is fixed point, in thousandths of a pixel, and the clock
//! counts ticks of one sixtieth of a time unit, so that every step of the
//! simulation — movement, collision, cooldowns, the economy — carries an
//! exact contract. Rendering, input and the save file live outside the
//! library and talk to it through plain values.

pub mod bullet;
pub mod enemy;
pub mod game;
pub mod geom;
mod rng;
pub mod save_data;
pub mod tower;
