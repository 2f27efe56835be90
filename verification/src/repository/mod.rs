pub mod collection;
pub mod mongodb_repo;
