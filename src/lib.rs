//! Scaffolding for reproducible development shells: a closed catalog of
//! languages, the text of the environment descriptor and activation stub
//! generated for each, and the decisions taken when those files are created.

pub mod language;
pub mod template;
pub mod operation;
