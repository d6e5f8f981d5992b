pub mod laws;
mod rng;
pub mod rolls;

pub use rolls::Gacha;
pub use rolls::GachaError;
pub use rolls::Item;
pub use rolls::ItemFromJson;
pub use rolls::ItemType;
