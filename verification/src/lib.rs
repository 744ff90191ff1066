//! The logic of a command line tool that publishes static sites: its settings, its
//! conversations with the user and the service, and what it makes of their answers.
pub mod access;
pub mod address;
pub mod admin;
pub mod args;
pub mod cancel;
pub mod collect;
pub mod config;
pub mod credentials;
pub mod dotenv;
pub mod files;
pub mod http;
pub mod init;
pub mod json;
pub mod keychain;
pub mod login;
pub mod login_laws;
pub mod logout;
pub mod passwd;
pub mod progress;
pub mod projects;
pub mod prompt;
pub mod publish;
pub mod removal;
pub mod resolve;
pub mod session;
pub mod setup;
pub mod site;
pub mod slug;
pub mod talk;
pub mod text;
pub mod views;
