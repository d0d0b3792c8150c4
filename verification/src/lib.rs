pub mod prompt;
pub mod settings;
pub mod text;
pub mod polisher;
pub mod failure;
pub mod shape;
pub mod monitor;
pub mod editable;
pub mod force_focus;
pub mod flow;
pub mod state;
pub mod submit;
pub mod keystroke;
