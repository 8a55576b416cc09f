pub mod dispatch;
pub mod http;
