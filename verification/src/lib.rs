pub mod downloadable;
pub mod engine;
pub mod drivers;
pub mod errors;
pub mod kvlist;
pub mod link_cache;
pub mod meta;
pub mod pool;
pub mod refresher;
