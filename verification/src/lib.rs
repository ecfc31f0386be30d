pub mod card;
pub mod dependencies;
pub mod find_card;
pub mod keys;
pub mod laws;
pub mod review;
pub mod statelist;
