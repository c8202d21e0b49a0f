//! Controller input for an 8-bit console emulator: the strobe-latched
//! shift registers behind the two controller ports, the live and replay
//! input adapters that feed them, and the front end's settings.

mod args;
mod input;
mod movie;
mod ports;
mod settings;
mod shift_register;

pub use args::{flag_free, get_movie_file, movie_flag};
pub use input::{
    button_bits, controller_state, key_bits, read_key, KeyboardSnapshot, SdlIO, A, B, DOWN, LEFT,
    RIGHT, SELECT, START, UP,
};
pub use movie::{
    lemma_record_log, lemma_replay_supplies_log, movie_poll_step, movie_state, polls, MovieIO,
    MovieView,
};
pub use ports::{
    lemma_drain_order, lemma_shifted, lemma_strobe_latches, live_step, port_value, read_step, strobe_of, write_step,
    ControllerPorts, InvalidAddress, PortsView, CONTROLLER1_ADDR, CONTROLLER2_ADDR, OPEN_BUS,
};
pub use settings::{
    config_bool, default_settings, found_or, get_bool, make_emulator_settings, setting_or, settings_with, Settings,
};
pub use shift_register::{shifted, ShiftRegister8};
