pub mod creator;
pub mod maccommandcreator;
pub mod laws;
pub mod maccommands;
pub mod parser;
