//! Builders for the option dictionaries of the client roles.

pub mod option;
pub mod registration;

pub use option::{InvokeOption, MatchOption, OptionBuilder, WampOption};
pub use registration::{RegistrationOptionItem, RegistrationOptions};
