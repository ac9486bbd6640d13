pub mod models;
pub mod storage;
pub mod text;

pub use models::{Cactus, CactusResponse, Flower, FlowerColor, GrowthStage, RejectionKind, UserStats, WaterRequest};
pub use storage::{CactusStorage, CactusStore};
