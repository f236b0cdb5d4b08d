pub mod absence;
pub mod grade;
pub mod parent_student;
pub mod student;
pub mod user;
