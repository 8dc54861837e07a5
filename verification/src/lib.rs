//! Verified cores of three small interactive console programs: a
//! number-guessing game, a four-operation calculator, and a temperature
//! converter.  Each module holds the pure decision logic of one program;
//! console I/O lives outside the library.

pub mod calc;
pub mod decimal;
pub mod game;
pub mod numparse;
pub mod temperature;
pub mod text;
