//! Core of a terminal application skeleton: terminal input and two periodic
//! timers are merged into one ordered stream of actions, actions are routed
//! by the application loop, dispatched against the UI state tree, and render
//! requests drive a separate render driver.
//!
//! Everything here is the decision logic of that pipeline; the asynchronous
//! tasks, channels and the terminal itself are driven by the host program.

pub mod action;
pub mod app;
pub mod base;
pub mod components;
pub mod event;
pub mod terminal;

pub use action::{Action, Message};
pub use event::{Event, EventHandler, Flow, KeyCode, KeyEvent, KeyEventKind, KeyModifiers, MouseEvent, Occurrence, TerminalEvent};
pub use base::{Base, BaseState, Effect, Mode};
pub use components::{Component, Other};
pub use app::{App, AppState, Phase, Route};
pub use terminal::{driver_step, input_cursor, input_text_width, Command, DriverStep};
