pub mod data;
pub mod email;
pub mod gate;
pub mod llms;
pub mod markup;
pub mod schema;
pub mod types;
