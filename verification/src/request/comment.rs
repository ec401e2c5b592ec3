pub mod student_comment;
pub mod teacher_comment;
