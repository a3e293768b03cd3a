//! The logic of a small networked device: a microcontroller with an LED and a temperature sensor
//! that takes commands as lines of text, keeps its configuration in flash, joins a wireless network
//! and reports its state to a message broker.
//!
//! The device is driven from outside. Each of its operations is a method that makes one step and
//! says which effect is to be performed next; see [`effect`]. The methods' contracts say what each
//! step does, and the functions named `law_` state what holds of the device as a whole.
pub mod command;
pub mod config;
pub mod description;
pub mod device;
pub mod effect;
pub mod execute;
pub mod history;
pub mod lifecycle;
pub mod mqtt;
pub mod network;
pub mod storage;
pub mod temperature;
pub mod text;
pub mod wire;

pub use command::{deserialize_config, parse_command, LedCommandParameter, PicoCommand};
pub use config::Configuration;
pub use device::{DemoDevice, DemoDeviceBuilder, Peripherals};
pub use effect::{Action, Answer, DeviceState, Effect, Fault, Reply, Turn};
