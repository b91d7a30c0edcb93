//! Board support logic for the STM32F3 Discovery board: the compass ring of
//! user LEDs, its direction-aware iterator, and the user button's external
//! interrupt configuration.

pub mod button;
pub mod leds;

