pub mod modals;
pub mod panes;
pub mod view;
