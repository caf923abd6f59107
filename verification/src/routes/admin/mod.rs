pub mod dashboard;
pub mod password;
