//! Turns a career-fair employer export into vault notes: records are
//! extracted from a JSON tree, the template's field schema is merged with
//! the generated columns, and one Markdown note is rendered per employer.

pub mod front_matter;
pub mod json;
pub mod company;
pub mod yaml;
pub mod schema;
pub mod note;
pub mod vault;
pub mod laws;
