//! A small messenger over an AMQP broker: load the settings, resolve the
//! queue name, bring up a broker session, then publish one message or consume
//! deliveries until the stream ends.

pub mod config;
pub mod messaging;
pub mod session;
