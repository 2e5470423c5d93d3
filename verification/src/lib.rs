pub mod dirty;
pub mod error;
pub mod help;
pub mod highlight;
pub mod input;
pub mod message;
pub mod paint;
pub mod row;
pub mod screen;
pub mod sequence;
pub mod status_bar;
pub mod term_color;
pub mod text_buffer;
pub mod viewport;
pub mod width;
pub mod window;
