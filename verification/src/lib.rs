//! Greetings of the day.
//!
//! [`greeting_of_the_day`] says which greeting a calendar date calls for:
//! that of a holiday, of a moveable feast of the Easter cycle, or the plain
//! good morning. Each provider knows the page on which its site lists the
//! pictures for a greeting, and reads the addresses of the pictures off the
//! page once it has been fetched.
pub mod calendar;
pub mod error;
pub mod greeting;
pub mod markup;
pub mod moveable_feasts;
pub mod providers;

pub use calendar::{Date, Weekday};
pub use error::{ScrapeError, ScrapeResult};
pub use greeting::{greeting_of_the_day, greeting_of_the_day_with, Greeting};
pub use providers::{
    Augurando, BuongiornissimoCaffe, BuongiornoImmagini, IlMondoDiGrazia, TiCondivido,
};
