//! The HTTP API's verified parts: the state snapshot it reports and the
//! health report built from it. Routing and handlers live with the server.

pub mod health;
pub mod state;

pub use health::{health_report, FaceHealth, HealthResponse, TtHealth, WriterHealth};
pub use state::FaceStatus;
