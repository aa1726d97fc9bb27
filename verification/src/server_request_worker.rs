//! Delivery of app-server approval and input requests to Discord: the
//! idempotency cache, the retry schedule and the delivery identity.


pub mod delivery_identity;
pub mod recovery;
pub mod sent_cache;
