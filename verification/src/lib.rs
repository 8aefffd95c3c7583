pub mod agent;
pub mod chunk;
pub mod config;
pub mod context;
pub mod decision;
pub mod index;
pub mod json;
pub mod laws;
pub mod mcp;
pub mod normalize;
pub mod prompt;
pub mod screen;
pub mod state;
pub mod text;

pub use agent::{answer_query_hybrid, run_agent, AgentAction, AgentEvent, Origin};
pub use chunk::chunk_text;
pub use config::Config;
pub use context::{build_prompt_with_context, format_context_from_hits, Hit, Payload};
pub use decision::{parse_decision, Decision};
pub use index::{index_corpus, IndexProgress, IndexStep, PointPayload, PointRecord};
pub use json::{Json, Member};
pub use mcp::{McpCapabilities, McpClient, McpTransport};
pub use state::{AgentState, Message};
