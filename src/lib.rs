//! An on-chain style registry for Model Context Protocol servers and the
//! tools, prompt templates and resources they expose.
//!
//! Records are addressed by identifiers handed out in order and never
//! reused; nothing is ever removed, and deactivation only clears a flag.
//! Every request is applied whole or rejected whole.

pub mod bounded;
pub mod config;
pub mod laws;
pub mod protocol;
pub mod registry;
pub mod types;

pub use bounded::BoundedBytes;
pub use config::{Config, Error, Event};
pub use protocol::{ProtocolVersion, ProtocolVersionError};
pub use registry::Pallet;
pub use types::{
    AccountId, IpfsCid, PromptId, PromptTemplate, PromptsCapability, ResourceId, ResourceInfo,
    ResourcesCapability, ServerCapabilities, ServerId, ServerInfo, ToolAnnotations, ToolId,
    ToolInfo, ToolsCapability, TransportConfig,
};
