pub mod frontrun_protection;
pub mod reentrancy_guard;
