pub mod airport;
pub mod arrival;
pub mod flight;
pub mod reference;
