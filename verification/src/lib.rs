//! Session lifecycle for an account service: sign-up, login, logout and
//! access-token refresh, written as conversations between a handler and the
//! collaborators it depends on (the connection, the stores, the password
//! hasher, the token service, the clock).
//!
//! A handler never touches a collaborator itself. It is a function from its
//! current state and the latest event to either an [`exchange::Action`] that
//! the caller performs, or the reply that ends the request. The caller runs
//! the loop:
//!
//! ```text
//! let mut step = login(LoginState::new(param), Event::Start);
//! loop {
//!     match step {
//!         Step::Respond(reply) => return reply,
//!         Step::Perform { state, action } => step = login(state, perform(action)),
//!     }
//! }
//! ```
//!
//! What a faithful set of collaborators answers is modelled in [`world`],
//! complete conversations in [`conversation`] and [`outcomes`], and the
//! guarantees that hold of them are proved in [`laws`].

pub mod records;
pub mod http;
pub mod exchange;
pub mod clock;
pub mod validation;
pub mod signup;
pub mod login;
pub mod logout;
pub mod refresh;
pub mod grammar;
pub mod world;
pub mod conversation;
pub mod outcomes;
pub mod laws;
