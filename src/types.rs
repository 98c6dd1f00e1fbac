use vstd::prelude::*;
use crate::bounded::BoundedBytes;
use crate::protocol::ProtocolVersion;

verus! {

pub type AccountId = u64;

pub type ServerId = u64;

pub type ToolId = u64;

pub type PromptId = u64;

pub type ResourceId = u64;

/// A content identifier that points at data held off-chain.
pub type IpfsCid = BoundedBytes<64>;

/// The bytes of an optional bounded value.
pub open spec fn opt_view<const N: usize>(o: Option<BoundedBytes<N>>) -> Option<Seq<u8>> {
    match o {
        Some(b) => Some(b@),
        None => None,
    }
}

/// The bytes of an optional byte vector.
pub open spec fn opt_bytes(o: Option<Vec<u8>>) -> Option<Seq<u8>> {
    match o {
        Some(b) => Some(b@),
        None => None,
    }
}

#[derive(Clone, Copy, Debug, PartialEq, Eq, Structural)]
pub struct ToolsCapability {
    /// Whether the server notifies when its tool list changes.
    pub list_changed: Option<bool>,
}

#[derive(Clone, Copy, Debug, PartialEq, Eq, Structural)]
pub struct PromptsCapability {
    /// Whether the server notifies when its prompt list changes.
    pub list_changed: Option<bool>,
}

#[derive(Clone, Copy, Debug, PartialEq, Eq, Structural)]
pub struct ResourcesCapability {
    /// Whether the server supports resource subscriptions.
    pub subscribe: Option<bool>,
    /// Whether the server notifies when its resource list changes.
    pub list_changed: Option<bool>,
}

/// What a server advertises; each flag is absent, off or on.
#[derive(Clone, Copy, Debug, PartialEq, Eq, Structural)]
pub struct ServerCapabilities {
    pub logging: Option<bool>,
    pub completions: Option<bool>,
    pub tools: Option<ToolsCapability>,
    pub prompts: Option<PromptsCapability>,
    pub resources: Option<ResourcesCapability>,
    pub sampling: Option<bool>,
}

impl Default for ToolsCapability {
    fn default() -> (r: Self)
        ensures
            r.list_changed is None,
    {
        ToolsCapability { list_changed: None }
    }
}

impl Default for PromptsCapability {
    fn default() -> (r: Self)
        ensures
            r.list_changed is None,
    {
        PromptsCapability { list_changed: None }
    }
}

impl Default for ResourcesCapability {
    fn default() -> (r: Self)
        ensures
            r.subscribe is None,
            r.list_changed is None,
    {
        ResourcesCapability { subscribe: None, list_changed: None }
    }
}

impl Default for ServerCapabilities {
    fn default() -> (r: Self)
        ensures
            r.logging is None,
            r.completions is None,
            r.tools is None,
            r.prompts is None,
            r.resources is None,
            r.sampling is None,
    {
        ServerCapabilities {
            logging: None,
            completions: None,
            tools: None,
            prompts: None,
            resources: None,
            sampling: None,
        }
    }
}

/// How a server is reached.
#[derive(Clone, Debug, PartialEq, Eq)]
pub enum TransportConfig {
    Stdio,
    Http { endpoint: BoundedBytes<256> },
    Sse { endpoint: BoundedBytes<256> },
    WebSocket { endpoint: BoundedBytes<256> },
}

impl Default for TransportConfig {
    fn default() -> (r: Self)
        ensures
            r is Stdio,
    {
        TransportConfig::Stdio
    }
}

/// A registered server.
#[derive(Clone, Debug, PartialEq, Eq)]
pub struct ServerInfo {
    pub owner: AccountId,
    pub name: BoundedBytes<64>,
    pub description: Option<BoundedBytes<256>>,
    pub protocol_version: ProtocolVersion,
    pub capabilities: ServerCapabilities,
    pub transport: TransportConfig,
    pub metadata_cid: Option<IpfsCid>,
    pub active: bool,
    /// Clock tick at registration.
    pub created_at: u64,
    /// Clock tick of the last change.
    pub updated_at: u64,
}

/// Hints on how a tool behaves; each is unset, true or false.
#[derive(Clone, Debug, PartialEq, Eq)]
pub struct ToolAnnotations {
    pub title: Option<BoundedBytes<128>>,
    pub read_only_hint: Option<bool>,
    pub destructive_hint: Option<bool>,
    pub idempotent_hint: Option<bool>,
    pub open_world_hint: Option<bool>,
}

impl Default for ToolAnnotations {
    fn default() -> (r: Self)
        ensures
            r.title is None,
            r.read_only_hint is None,
            r.destructive_hint is None,
            r.idempotent_hint is None,
            r.open_world_hint is None,
    {
        ToolAnnotations {
            title: None,
            read_only_hint: None,
            destructive_hint: None,
            idempotent_hint: None,
            open_world_hint: None,
        }
    }
}

/// A tool exposed by a server.
#[derive(Clone, Debug, PartialEq, Eq)]
pub struct ToolInfo {
    pub server_id: ServerId,
    pub name: BoundedBytes<64>,
    pub description: Option<BoundedBytes<256>>,
    /// JSON schema of the input, as text.
    pub input_schema: BoundedBytes<2048>,
    /// JSON schema of the output, as text.
    pub output_schema: Option<BoundedBytes<2048>>,
    pub annotations: Option<ToolAnnotations>,
    pub metadata_cid: Option<IpfsCid>,
    pub active: bool,
}

/// A prompt template exposed by a server.
#[derive(Clone, Debug, PartialEq, Eq)]
pub struct PromptTemplate {
    pub server_id: ServerId,
    pub name: BoundedBytes<64>,
    pub description: Option<BoundedBytes<256>>,
    /// Template text; it may hold `{{placeholder}}` markers.
    pub template: BoundedBytes<2048>,
    pub parameter_schema: Option<BoundedBytes<1024>>,
    pub category: Option<BoundedBytes<32>>,
    pub metadata_cid: Option<IpfsCid>,
    pub active: bool,
}

/// A resource exposed by a server; its content lives off-chain.
#[derive(Clone, Debug, PartialEq, Eq)]
pub struct ResourceInfo {
    pub server_id: ServerId,
    pub name: BoundedBytes<64>,
    pub description: Option<BoundedBytes<256>>,
    pub uri: BoundedBytes<256>,
    pub mime_type: Option<BoundedBytes<64>>,
    pub content_cid: IpfsCid,
    pub metadata_cid: Option<IpfsCid>,
    pub active: bool,
}

} // verus!
