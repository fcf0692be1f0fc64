//! Configuration data model: the CasparCG server configuration schema,
//! its XML text form, and the wrapping profile format the GUI stores.

pub mod caspar;
pub mod global;
pub mod schema;
pub mod xmltext;
