//! Driver logic for an HC-12 UART radio transceiver.
//!
//! The module has two regimes: a transparent data-passthrough regime, running
//! in one of four sub-modes at a programmed baud rate, and a configuration
//! regime, entered by pulling a control line low, in which short ASCII
//! commands ("AT commands") change the radio channel, transmit power, baud
//! rate and sub-mode. This crate provides the typed state machine for
//! crossing between the regimes, the command codec, and the one-command-at-a-
//! time request/response session, all with verified contracts.

pub mod codec;
pub mod configuration;
pub mod device;
pub mod error;
pub mod modes;
pub mod resources;

pub use codec::ATCommandString;
pub use codec::NoOkResponse;
pub use codec::classify_response;
pub use codec::contains_ok;
pub use codec::encode_baud_rate;
pub use codec::encode_channel;
pub use codec::encode_power;
pub use codec::encode_sub_mode;
pub use codec::frame_command;
pub use codec::lemma_channel_roundtrip;
pub use codec::parse_digits3;

pub use configuration::Channel;
pub use configuration::HC12Configuration;
pub use configuration::InvalidChannelSetting;
pub use configuration::InvalidPowerSetting;
pub use configuration::Power;
pub use configuration::power_dbm;
pub use configuration::power_level;

pub use device::BuilderView;
pub use device::DeviceView;
pub use device::HC12;
pub use device::HC12Builder;
pub use device::lemma_safe_transition_order;
pub use device::lemma_transition_restores_new_pair;
pub use device::lemma_transition_restores_settings;
pub use device::spec_enter_configuration;
pub use device::spec_leave_configuration;
pub use device::spec_set_baud_rate;
pub use device::spec_set_channel;
pub use device::spec_set_power;
pub use device::spec_set_sub_mode;

pub use error::ATCommandError;
pub use error::BuildError;
pub use error::HC12Error;
pub use error::HC12ProgrammingError;

pub use modes::BaudRate;
pub use modes::Regime;
pub use modes::SubMode;
pub use modes::baud_bps;
pub use modes::lemma_capability_table;
pub use modes::sub_mode_supports;

pub use resources::ControlPin;
pub use resources::DelaySource;
pub use resources::HC12ProgrammingResources;
pub use resources::NonConfigurable;
pub use resources::SETTLE_DELAY_MS;
pub use resources::StolenUart;
pub use resources::Transport;
pub use resources::ValidProgrammingResources;
