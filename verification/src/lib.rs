pub mod check;
pub mod commit_range;
pub mod gitio;
pub mod object_id;
pub mod policy;
pub mod remote;
pub mod result;
