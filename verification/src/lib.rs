pub mod browsers;
pub mod command;
pub mod ini;
pub mod installation;
pub mod profile;
pub mod selection;
pub mod text;
