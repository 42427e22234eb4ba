//! The board: indicator lights, button increments, the actuator's duty and
//! the framing of the serial link.

pub mod hitachi_board;
pub mod husb238;
pub mod ledc;
pub mod uart;
pub mod wand;
pub mod ws2812;
