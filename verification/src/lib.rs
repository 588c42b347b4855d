//! Provisioning of short-lived application stacks ("simplets"): the
//! configuration model, the environment handed to each container, the
//! identity under which a running stack is tracked, and the lifecycle of a
//! stack as a state machine that a driver runs against a container engine.

pub mod jobs;
pub mod simplets;
