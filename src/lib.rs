pub mod domain;
pub mod email_client;
pub mod registrar;
pub mod routes;
pub mod configuration;
