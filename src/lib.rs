//! A generator of newtype wrappers around primitive values: it reads the
//! attribute list and the requested behaviours of a declaration, checks the
//! rules against each other, and writes the wrapper's code. It also holds
//! a model of the constructors it writes, and two wrappers written out.
pub mod token;
pub mod error;
pub mod literal;
pub mod rules;
pub mod attrs;
pub mod derive;
pub mod text;
pub mod guard;
pub mod wrappers;
pub mod plan;
pub mod fragment;
pub mod string_fragment;
pub mod pipeline;
