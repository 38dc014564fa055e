//! Verified core of a small 2D farming game.
//!
//! The library holds the per-frame gameplay rules: a keyboard-driven player
//! controller, a sprite animation driver, a pig spawner with a timed
//! lifecycle and a wander state machine, and a single money ledger fed by
//! per-frame notifications. Time is counted in milliseconds, money in cents,
//! and positions in thousandths of a world unit, so every rule is exact
//! integer arithmetic. Input polling, rendering and asset loading are the
//! host engine's business; the library only consumes plain values (pressed
//! keys, elapsed milliseconds) and produces plain values (positions, sprite
//! cells, ledger updates).

pub mod animation;
pub mod direction;
pub mod geometry;
pub mod money;
pub mod pig;
pub mod player;
pub mod state;
pub mod timer;

pub use direction::Direction;
pub use direction::FacingDirection;
pub use money::Money;
pub use money::MoneyEarnedEvent;
pub use state::GameState;
