//! The decisions behind two commands of the Nimbra Edge command line: showing
//! the status of the Kubernetes operator, and registering an appliance.

pub mod appliance;
pub mod appliance_laws;
pub mod color_laws;
pub mod credentials;
pub mod error;
pub mod escape;
pub mod failure;
pub mod lines;
pub mod operator;
pub mod operator_laws;
pub mod register;
pub mod register_laws;
pub mod register_option_laws;
pub mod register_step_laws;
pub mod table;
pub mod text;
pub mod url;
