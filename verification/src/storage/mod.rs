pub mod auction_store;
pub mod dispute_store;
pub mod transaction_store;
