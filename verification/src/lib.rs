//! A footstep planner for a bipedal walking robot.
//!
//! Given a reference path on the ground plane (line segments and circular
//! arcs), an initial body pose and the foot currently supporting the robot,
//! the planner scores a fixed horizon of future steps by a composite loss
//! (path distance, path progress, walk-volume penalty) and exposes the cost
//! and gradient of that loss to a quasi-Newton solver.
//!
//! All quantities are carried in a fixed-point scalar with micro-unit
//! resolution, so every arithmetic step has an exact contract.

pub mod angle;
pub mod arc;
pub mod circle;
pub mod clamping;
pub mod condition;
pub mod direction;
pub mod fixed;
pub mod kick;
pub mod line_segment;
pub mod partial;
pub mod path;
pub mod path_distance;
pub mod path_progress;
pub mod planner;
pub mod pose;
pub mod smoothmin;
pub mod step;
pub mod step_plan;
pub mod step_planning_loss;
pub mod step_size;
pub mod trig;
pub mod vec2;
