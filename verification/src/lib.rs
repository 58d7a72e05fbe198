pub mod accept_project_subowner;
pub mod answer_form;
pub mod answer_registration_form;
pub mod assign_user_role_to_email;
pub mod check_project_display_id_status;
pub mod create_file;
pub mod create_form;
pub mod create_form_answer;
pub mod create_project;
pub mod create_registration_form;
pub mod csv_output;
pub mod distribute_files;
pub mod domain;
pub mod error;
pub mod export_projects;
pub mod export_registration_form_answers;
pub mod export_users;
pub mod flow;
pub mod get_distributed_file;
pub mod get_file_distribution;
pub mod get_file_object;
pub mod get_form;
pub mod get_form_answer;
pub mod get_form_answer_shared_file_object;
pub mod get_login_user;
pub mod get_pending_project;
pub mod get_pending_project_registration_form;
pub mod get_pending_project_registration_form_answer;
pub mod get_project_by_code;
pub mod get_project_by_display_id;
pub mod get_project_creation_availability;
pub mod get_project_form;
pub mod get_project_form_answer;
pub mod get_project_form_answer_shared_file;
pub mod get_project_registration_form_answer;
pub mod get_project_registration_form_answer_shared_file;
pub mod get_project_shared_file_object;
pub mod get_registration_form;
pub mod get_registration_form_answer;
pub mod get_shared_file;
pub mod get_user;
pub mod get_user_file_usage;
pub mod get_user_invitation;
pub mod get_user_pending_project;
pub mod get_user_project;
pub mod interface;
pub mod invite_user;
pub mod list_all_file_distributions;
pub mod list_all_forms;
pub mod list_all_projects;
pub mod list_all_registration_forms;
pub mod list_all_user_invitations;
pub mod list_distributed_files;
pub mod list_form_answers;
pub mod list_pending_project_registration_forms;
pub mod list_registration_form_answers;
pub mod list_user_file_sharings;
pub mod model;
pub mod table;
pub mod text;

pub use error::{UseCaseError, UseCaseResult};
