pub mod bar_focus;
pub mod breadcrumb_picker;
pub mod display;
pub mod layout;
pub mod link_action_picker;
pub mod renderer;
pub mod value_picker;
pub mod row_search;
pub mod variant_picker;
pub mod keys;
pub mod picker_choices;
pub mod pool_activation;
pub mod browse_state;
pub mod row_focus;
pub mod breadcrumb_choice;
pub mod bar_activation;
pub mod editors;
pub mod app_steps;
