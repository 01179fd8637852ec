//! Relays goal highlights from a feed of community posts to messaging channels.
//!
//! A post is matched against each configured competition by lexical rules on
//! its title and by the host of its video link. Matching posts are delivered
//! to the competition's channel, and each delivery is remembered so that later
//! replies can be correlated with it.

pub mod competition;
pub mod dispatch;
pub mod filter;
pub mod ordering;
pub mod retry;
pub mod store;
pub mod submission;
pub mod supervisor;
pub mod text;
pub mod videohost;

pub use competition::{Competition, CompetitionName};
pub use dispatch::{route, Dispatch, DispatchAction, DispatchEvent, DispatchPhase, Target};
pub use filter::{evaluate, evaluate_at, submission_filter, Freshness, Rejection};
pub use retry::RetryPolicy;
pub use store::{GoalSubmission, ReplayStore};
pub use submission::RedditSubmission;
pub use supervisor::{
    FeedEvent, FeedSettings, OutOfTurn, StreamSupervisor, SupervisorAction, SupervisorState,
    TransportError,
};
pub use videohost::{UnrecognizedHost, VideoHost};
