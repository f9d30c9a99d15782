//! Backend logic of the Curio markdown viewer: file access, start-up
//! argument selection and the window session.

pub mod files;
pub mod session;
pub mod startup;
pub mod url;
