pub mod context;
pub mod dto;
pub mod policies;
pub mod ports;
pub mod use_cases;
