pub mod form;
pub mod form_answer;
pub mod project_query;
