pub mod arena;
pub mod borrow;
pub mod breadcrumb;
pub mod budgets;
pub mod card;
pub mod card_address;
pub mod end_scan;
pub mod export_read_barrier;
pub mod field_candidate;
pub mod ids;
pub mod revision;
pub mod value_address;
pub mod work_budget;
pub mod field_binding;
pub mod breadcrumb_context;
pub mod builder;
pub mod reflected;
