pub mod cleanup;
pub mod pubsub_consumer;
