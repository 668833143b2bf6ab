//! Protocol logic for a course-evaluation portal client: page scanning,
//! login handshake decisions, catalog filtering and the two-phase save.

pub mod answers;
pub mod captcha;
pub mod catalog;
pub mod endpoints;
pub mod form;
pub mod headers;
pub mod json;
pub mod login;
pub mod page;
pub mod selection;
pub mod submission;
pub mod text;
