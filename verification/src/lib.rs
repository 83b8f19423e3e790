//! Business rules of the invitation and scoring endpoints of the map backend,
//! verified with Verus. Database access, clocks, authentication and JSON stay
//! with the caller, which drives the step functions of `invitation_flow` and
//! hands back what the database returned.

pub mod decimal;
pub mod error;
pub mod invitation;
pub mod invitation_flow;
pub mod paging;
pub mod role;
pub mod score;
pub mod laws;
