pub mod audit;
pub mod backoff;
pub mod brackets;
pub mod bus;
pub mod dispatch;
pub mod event;
pub mod history;
pub mod laws;
pub mod limits;
pub mod model;
pub mod session;
pub mod turn;
