pub mod agent;
pub mod agent_laws;
pub mod conversation;
pub mod conversation_laws;
pub mod desktop;
pub mod json;
pub mod mcp;
pub mod mcp_calls;
pub mod mcp_config;
pub mod mcp_laws;
pub mod mcp_tools;
pub mod paths;
pub mod platform;
pub mod storage;
pub mod storage_laws;
pub mod text;
