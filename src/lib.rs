//! Core of the WayStation desktop client: OAuth2 login with PKCE, validation
//! of the redirect callback, the decisions on the token endpoint's answers,
//! the stored credential, and the edits and checks the client makes to set
//! up the WayStation MCP server. Input and output are left to the caller.
pub mod environment;
pub mod exchange;
pub mod json;
pub mod mcp_config;
pub mod model;
pub mod pkce;
pub mod query;
pub mod session;
pub mod store;
pub mod text;
