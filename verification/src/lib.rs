//! Provisioning of a removable boot medium for a single-board computer:
//! device inventory, operator selection, safety gates and the ordered
//! pipeline of destructive stages, all as plain values with proved contracts.

pub mod bootwrite;
pub mod command;
pub mod decimal;
pub mod gate;
pub mod inventory;
pub mod job;
pub mod pipeline;
pub mod plan;
pub mod selector;
pub mod step;
pub mod text;
