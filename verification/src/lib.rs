//! Republishes smart-lighting bridge sensor state as OSC messages.
//!
//! The verified core covers the sensor catalog resolver, the per-sensor
//! transformation of raw snapshots into fixed-arity OSC argument lists,
//! the change filter that suppresses redundant publishes, and the
//! credential-pairing state machine. Network and file I/O, as well as the
//! float projection of arguments onto the wire, live outside the library.

pub mod config;
pub mod kinds;
pub mod pairing;
pub mod resolve;
pub mod snapshot;
pub mod transformer;

pub use config::SensorConfig;
pub use resolve::BridgeSensor;
pub use resolve::ResolveError;
pub use resolve::prepare_sensor_transformers;
pub use kinds::SensorKind;
pub use kinds::type_name_to_kind;
pub use snapshot::OscArg;
pub use snapshot::RawSensorSnapshot;
pub use transformer::SensorTransformer;
