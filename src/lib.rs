pub mod error;
pub mod executor;
pub mod landweber;
pub mod math;
pub mod observer;
pub mod problem;
pub mod solver;
pub mod state;
pub mod termination;
