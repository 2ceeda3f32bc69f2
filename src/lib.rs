//! Host telemetry for Windows machines: the typed-value boundary of the
//! management service, the resource discipline of a query session, and the
//! assemblers that turn query records into domain records and display text.
#![allow(non_snake_case)]

pub mod error;
pub mod value;
pub mod record;
pub mod session;
pub mod enumerator;
pub mod query;
pub mod text;
pub mod utils;
pub mod winfetch;
pub mod model;
