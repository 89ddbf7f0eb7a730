pub mod bc_discover_index;
pub mod bc_discover_json;
pub mod bc_discover_tags;
pub mod bc_error;
pub mod bc_models;
pub mod index_models;
pub mod search_models;
pub mod shared_data_models;
