pub mod create_trip;
pub mod confirm_trip;
pub mod confirm_participant;
pub mod get_activities;
pub mod create_activity;
pub mod create_link;
pub mod create_invite;
pub mod update_trip;
pub mod get_links;
pub mod get_participant;
pub mod get_trip_details;
pub mod ready;
