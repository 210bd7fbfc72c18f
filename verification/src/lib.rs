//! A quadratic-voting session: participants spend a fixed budget of credits on
//! proposals, and the votes a proposal receives from one participant are the
//! square root of the credits that participant spent on it.
//!
//! The library keeps every quantity exact. A vote count is held as the number
//! of credits under the root ([`model::VoteCount`]); rendering it as a decimal
//! number is left to the caller.

pub mod error;
pub mod model;
pub mod roots;
pub mod session;
pub mod results;
pub mod laws;
pub mod audit;

pub use error::VotingError;
pub use model::{Proposal, Vote, VoteCount, Voter};
pub use roots::whole_votes;
pub use session::Session;
pub use results::{ProposalResult, ResultLine};
