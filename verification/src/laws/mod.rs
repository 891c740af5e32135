//! What holds of the controller as a whole.

pub mod answer_laws;
pub mod button_laws;
pub mod host_laws;
pub mod message_laws;
pub mod power_laws;
pub mod press_laws;
pub mod request_laws;
pub mod task_laws;
