//! The records the backend keeps.

pub mod event;
pub mod participant;
pub mod phc;
pub mod user;

pub use event::{CreateEvent, Event};
pub use participant::{CreateParticipant, Participant};
pub use user::{CreateUser, NewUser, PasswordError, PasswordUpdate, User};
