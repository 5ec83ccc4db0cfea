//! Verified core of the Crust AI chat application: routes, chat models, the
//! home-page conversation state machine, authentication decisions and the
//! small pieces of view logic that the components compute.

pub mod text;
pub mod chat_models;
pub mod chat_routes;
pub mod chat_replies;
pub mod home_chat;
pub mod auth_model;
pub mod password;
pub mod auth_flow;
pub mod route_guard;
pub mod app_shell;

pub use chat_models::{ChatSummary, Message, MessageRole};
pub use chat_routes::ChatRoutes;
pub use chat_replies::get_reply;
pub use home_chat::{ChatMode, ChatState};
pub use auth_model::{PasswordHash, Timestamp, User};
pub use password::HashFailure;
pub use auth_flow::{login, register, AccountUpdate, AuthError, LoginAttempt, NewUser};
pub use route_guard::{protected_route_access, RouteAccess};
