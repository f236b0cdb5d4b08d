pub mod absences;
pub mod grades;
pub mod listing;
pub mod login;
pub mod parent_students;
pub mod session;
pub mod stats;
pub mod students;
pub mod updating;
pub mod users;
