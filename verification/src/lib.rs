//! Menu-to-configuration binding logic for a system-tray recording controller.
//!
//! The tray front end exposes recording settings (framerate, replay duration,
//! quality, container format) as single-selection option groups, plus plain
//! actions (save the current replay, change the output path, show information,
//! quit).  This crate holds the part of that front end that has a precise
//! contract:
//!
//! * [`config`]: the configuration record, its fields and typed field values;
//! * [`options`]: rendering an ordered list of option entries against the
//!   current configuration value into a selection group, with an optional
//!   sentinel "custom value" slot;
//! * [`actions`]: reconciling a user selection with the configuration store,
//!   recording the assignment/persistence discipline, and dispatching
//!   outbound events to the main loop;
//! * [`menu`]: assembling the full menu tree from a configuration snapshot.
//!
//! The host tray protocol, the lock around the shared store, the asynchronous
//! persistence call, the number prompt and the event channel are external
//! collaborators: the embedding application drives them and feeds their
//! results back into the functions here.

pub mod actions;
pub mod config;
pub mod menu;
pub mod options;
