//! Task filtering, urgency scoring, calendar bucketing and report aggregation
//! for a terminal task manager backed by an external task store.

pub mod model;
pub mod text;
pub mod criteria;
pub mod ordering;
pub mod facets;
pub mod task_list;
pub mod main_view;
pub mod urgency;
pub mod calendar;
pub mod reports;
pub mod activity;
pub mod validation;
pub mod reports_view;
pub mod config;
pub mod handlers;
pub mod screen;
pub mod widgets;
pub mod record;
pub mod json;
pub mod filters;
pub mod table;
pub mod formatting;
pub mod cache;
pub mod filter_bar;
pub mod task_form;
pub mod commands;
pub mod app_ui;
