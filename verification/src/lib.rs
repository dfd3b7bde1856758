pub mod clock;
pub mod errors;
pub mod ids;
pub mod media;
pub mod models;
pub mod owner;
pub mod rent;
pub mod sale;
pub mod session;
pub mod user;
