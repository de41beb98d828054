//! Session and access-role logic of an authorization service: the roles of
//! users, the sessions table and its rows, what a login does to the sessions of
//! a user, and the renewal of session keys.
pub mod auth;
pub mod codec;
pub mod error;
pub mod policy;
pub mod role;
pub mod row;
pub mod session;
pub mod table;

pub use auth::{access_key_from_header, AuthInfo, Settings};
pub use error::Error;
pub use policy::{login_takes_over, plan_create_session, plan_create_session_with_id, SessionPlan};
pub use role::Role;
pub use row::{id_text, SessionRow};
pub use session::{
    key_expiration, new_session, new_session_with_id, refresh_session, renew_session_key,
    SessionRequest, UserSessionDbo, SECONDS_PER_DAY,
};
pub use table::{create_table_sql, UserSessionTable};
