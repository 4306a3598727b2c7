//! Weekly meeting log: the rules and the HTML of a small web application in
//! which staff report work items per monthly meeting and a summary side
//! filters, reports and maintains the option lists.

pub mod filter;
pub mod form;
pub mod meeting;
pub mod model;
pub mod options;
pub mod pages;
pub mod reports;
pub mod screens;
pub mod seed;
pub mod sorted;
pub mod storage;
pub mod templates;
pub mod text;
pub mod widgets;
