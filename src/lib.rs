//! Background progression engine of an idle collection game: activity is
//! turned into energy, energy into pity-adjusted rarity rolls, and the game
//! state is repaired and converted for durable storage.

pub mod energy;
pub mod input;
pub mod rarity;
pub mod save;
pub mod settings;
pub mod state;
pub mod strmap;
