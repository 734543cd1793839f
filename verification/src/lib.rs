//! The output of a conversation in a terminal: a buffer that holds streamed
//! text back until a paragraph is complete, and the layout of structured
//! values, paths and notices as styled lines within the width of the
//! terminal. The library decides what is put out; writing it is left to
//! its caller.

pub mod compact;
pub mod decimal;
pub mod lines;
pub mod message;
pub mod output;
pub mod path;
pub mod printer;
pub mod prompts;
pub mod render;
pub mod session;
pub mod spacing;
pub mod status;
pub mod streaming_buffer;
pub mod text;
pub mod theme;
pub mod tool_call;
pub mod value;
pub mod width;
