pub mod load_balancing;
pub mod worker;
pub mod websockets;
