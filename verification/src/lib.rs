//! A verified two-player "Chopsticks" game service.
//!
//! Each player has two slots, each starting at 1. On a turn, a player
//! adds the value of one of their non-empty slots to one of the
//! opponent's slots; a slot that reaches the elimination threshold is
//! reset to 0. A player whose slots are both 0 loses. Sessions live in
//! a keyed store and are driven through a thin service layer that
//! validates identity and turn order before every mutation.

pub mod entropy;
pub mod game;
pub mod laws;
pub mod service;
pub mod store;

pub use game::ELIMINATION_THRESHOLD;
pub use game::Game;
pub use game::JoinError;
pub use game::MoveError;
pub use game::Phase;
pub use game::Player;
pub use game::PlayerId;
pub use game::Seat;
pub use game::SessionId;
pub use game::Slot;
pub use service::GameService;
pub use service::ServiceError;
pub use store::SessionError;
pub use store::SessionStore;
