//! Pool-creation sniping core: a reconnecting subscription lifecycle, a decoder
//! for pool-initialisation transactions, a bounded supervisor of trade workers
//! and the trade worker's decision machine.
pub mod address;
pub mod decoder;
pub mod swapper;
pub mod supervisor;
pub mod websocket;
pub mod types;
pub mod indexer;
