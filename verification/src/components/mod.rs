pub mod powerline_tab;
pub mod xml;
