//! Core of a focus-follows-mouse desktop utility.
//!
//! The operating system keeps a small set of global window-focus-tracking
//! settings: whether focus follows the mouse at all, whether a focused window
//! is also raised, and how long the cursor must rest before focus moves.
//! This crate models that ambient state as a [`store::ParameterStore`] and
//! verifies the controller that overrides the settings at startup and
//! restores the user's original values at shutdown.
//!
//! The platform backend that performs the actual settings calls, and the
//! tray-menu shell that routes user events, live outside this library; they
//! drive [`controller::FocusController`] through the same interface that the
//! proofs here cover.

pub mod controller;
pub mod store;

pub use controller::ControllerState;
pub use controller::FocusController;
pub use controller::FocusControllerTrait;
pub use store::CursorPosition;
pub use store::ParameterStore;
pub use store::StoreModel;
pub use store::TrackingConfig;
