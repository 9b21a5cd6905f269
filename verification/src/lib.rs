//! A verified core for an HTTP reverse proxy with load balancing, active
//! health checking, and per-client rate limiting.
//!
//! The library holds the decision logic: the upstream registry and selector,
//! the health-sweep bookkeeping, the rate limiter, and the per-connection
//! state machine. Network I/O, argument parsing, and the HTTP wire codec
//! live outside the library and drive it with plain values.

pub mod breakpoint;
pub mod conn;
pub mod factor;
pub mod health;
pub mod rate_limit;
pub mod registry;
pub mod selector;

pub use breakpoint::Breakpoint;
pub use breakpoint::align_addr_to_word;
pub use conn::ConnAction;
pub use conn::ConnEvent;
pub use conn::ConnState;
pub use conn::RequestFault;
pub use conn::RequestOutcome;
pub use conn::initial_state;
pub use conn::step;
pub use factor::factor_number;
pub use factor::is_prime;
pub use factor::pop_front_from_queue;
pub use factor::worker_thread;
pub use health::ProbeOutcome;
pub use health::classify_probe;
pub use health::health_sweep;
pub use rate_limit::RateDecision;
pub use rate_limit::RateLimiter;
pub use registry::Registry;
pub use selector::any_healthy;
pub use selector::connect_upstream;
pub use selector::select_upstream;
