pub mod history;
pub mod id_resolver;
pub mod ldms;
pub mod model;
pub mod records;
