pub mod continue_edit;
pub mod list_models;
