//! Keep-awake core for a menu-bar utility: which power assertions to hold,
//! when to drop them, the timed sessions that drop them later, and the
//! launch-at-login descriptor. Everything here is plain computation; the
//! caller performs the operating-system work that the returned effects name.

pub mod mode;
pub mod session;
pub mod escape;
pub mod login_item;
pub mod click;
pub mod clock;
pub mod laws;
