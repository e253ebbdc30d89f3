//! The application's configuration values.
//!
//! Loading and parsing the configuration file is the caller's business; the
//! values arrive here as plain data.

use vstd::prelude::*;

verus! {

/// Connection values for the message broker transport.
#[derive(Clone, Debug)]
pub struct AmqpConfig {
    pub host: String,
    pub queue: String,
    pub username: String,
    pub password: String,
}

/// Everything the application is configured with: test mode, the worker
/// count, the geocoding endpoint, and the transport connection.
#[derive(Clone, Debug)]
pub struct ApplicationConfig {
    pub test: bool,
    pub thread_count: i32,
    pub nominatim_url: String,
    pub amqp_config: AmqpConfig,
}

/// Assembles the application configuration from the loaded values.
pub fn read(
    test: bool,
    thread_count: i32,
    nominatim_url: String,
    host: String,
    queue: String,
    username: String,
    password: String,
) -> (r: ApplicationConfig)
    ensures
        r.test == test,
        r.thread_count == thread_count,
        r.nominatim_url@ == nominatim_url@,
        r.amqp_config.host@ == host@,
        r.amqp_config.queue@ == queue@,
        r.amqp_config.username@ == username@,
        r.amqp_config.password@ == password@,
{
    ApplicationConfig {
        test,
        thread_count,
        nominatim_url,
        amqp_config: AmqpConfig { host, queue, username, password },
    }
}

} // verus!
