pub mod gamma;
pub mod sportmonks;
pub mod sportradar;
