//! Coordination core of a multi-window desktop application.
//!
//! One control thread owns a registry of live windows and routes window
//! events to per-window workers; every worker drives one surface context
//! through its build, resize and paint steps. This crate holds the decisions
//! of all three parts as verified state machines. Windowing, graphics and
//! threads are supplied by the host, which carries out the actions the state
//! machines ask for and reports back what happened.

pub mod app;
pub mod child;
pub mod event;
pub mod viewport;
pub mod worker;

pub use app::{route, App, Command, Dispatch, Registry};
pub use child::{Child, ChildView};
pub use event::{ChildEvent, ElementState, KeyCode, PhysicalSize, WindowEvent, WindowId};
pub use viewport::{SurfaceConfiguration, SurfaceUpdate, Viewport, ViewportError, ViewportView};
pub use worker::{Phase, StopReason, Worker, WorkerAction, WorkerEvent, WorkerView};
