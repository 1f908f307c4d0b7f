//! Verified projections of agent tasks: identity selection, JSON records,
//! event histories, milestones, display timelines and subscription states.

pub mod active_listing;
pub mod active_tasks;
pub mod deadline;
pub mod display;
pub mod display_laws;
pub mod endpoints;
pub mod events;
pub mod history;
pub mod history_laws;
pub mod identity;
pub mod json;
pub mod lifecycle;
pub mod milestone_laws;
pub mod milestones;
pub mod phase;
pub mod phase_laws;
pub mod query;
pub mod query_laws;
pub mod reading_laws;
pub mod report_laws;
pub mod route_laws;
pub mod row_laws;
pub mod snapshot;
pub mod snapshot_laws;
pub mod stage_laws;
pub mod status;
pub mod status_query;
pub mod store_laws;
pub mod subscription;
pub mod subscription_laws;
pub mod subscription_snapshot;
pub mod subscription_view_laws;
pub mod task_list;
pub mod template_laws;
pub mod text;
