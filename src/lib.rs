pub mod bonus_flag;
pub mod game_object;
pub mod identity;
pub mod position;
pub mod query;
