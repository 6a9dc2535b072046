//! Properties that span operations, stated over the models and proved.

pub mod arrivals;
pub mod browsing;
pub mod choices;
pub mod documents;
pub mod flow;
pub mod history;
pub mod launches;
pub mod library;
pub mod models;
pub mod opening;
pub mod requests;
pub mod results;
pub mod session;
pub mod settings;
pub mod shown;
pub mod sources;
pub mod work;
