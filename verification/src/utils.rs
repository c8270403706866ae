//! Small verified helpers shared by the codecs and the path builders.

pub mod strings;
