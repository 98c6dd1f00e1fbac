use pallet_mcp::{
    BoundedBytes, PromptTemplate, PromptsCapability, ProtocolVersion, ProtocolVersionError,
    ResourceInfo, ServerCapabilities, ServerInfo, ToolAnnotations, ToolInfo, ToolsCapability,
    TransportConfig,
};

fn bytes<const N: usize>(b: &[u8]) -> BoundedBytes<N> {
    BoundedBytes::<N>::try_from_vec(b.to_vec()).unwrap()
}

#[test]
fn test_protocol_version_default() {
    let default_version = ProtocolVersion::default();
    assert_eq!(default_version, ProtocolVersion::V20241105);
}

#[test]
fn test_protocol_version_creation() {
    let v1 = ProtocolVersion::V20241105;
    let v2 = ProtocolVersion::V20250326;

    assert_eq!(v1, ProtocolVersion::V20241105);
    assert_eq!(v2, ProtocolVersion::V20250326);
}

#[test]
fn test_server_capabilities_default() {
    let capabilities = ServerCapabilities::default();
    assert!(capabilities.logging.is_none());
    assert!(capabilities.completions.is_none());
    assert!(capabilities.tools.is_none());
    assert!(capabilities.prompts.is_none());
    assert!(capabilities.resources.is_none());
    assert!(capabilities.sampling.is_none());
}

#[test]
fn test_server_capabilities_with_tools() {
    let capabilities = ServerCapabilities {
        tools: Some(ToolsCapability {
            list_changed: Some(true),
        }),
        ..Default::default()
    };

    assert!(capabilities.tools.is_some());
    assert_eq!(capabilities.tools.unwrap().list_changed, Some(true));
}

#[test]
fn test_transport_config_default() {
    assert_eq!(TransportConfig::default(), TransportConfig::Stdio);
}

#[test]
fn test_server_info_creation() {
    let server_info = ServerInfo {
        owner: 1u64,
        name: bytes(b"test-server"),
        description: Some(bytes(b"Test server description")),
        protocol_version: ProtocolVersion::v_2024_11_05(),
        capabilities: ServerCapabilities {
            logging: None,
            completions: None,
            tools: Some(ToolsCapability {
                list_changed: Some(true),
            }),
            prompts: Some(PromptsCapability {
                list_changed: Some(true),
            }),
            resources: None,
            sampling: None,
        },
        transport: TransportConfig::Stdio,
        metadata_cid: None,
        active: true,
        created_at: 1u64,
        updated_at: 1u64,
    };

    assert_eq!(server_info.owner, 1u64);
    assert_eq!(server_info.name.to_vec(), b"test-server".to_vec());
    assert!(server_info.capabilities.tools.is_some());
    assert!(server_info.capabilities.prompts.is_some());
    assert!(server_info.capabilities.resources.is_none());
    assert!(server_info.capabilities.sampling.is_none());
}

#[test]
fn test_tool_info_creation() {
    let tool_info = ToolInfo {
        server_id: 1,
        name: bytes(b"test-tool"),
        description: Some(bytes(b"Test tool description")),
        input_schema: bytes(b"{\"type\": \"object\"}"),
        output_schema: None,
        annotations: None,
        metadata_cid: None,
        active: true,
    };

    assert_eq!(tool_info.server_id, 1);
    assert_eq!(tool_info.name.to_vec(), b"test-tool".to_vec());
    assert!(tool_info.active);
}

#[test]
fn test_prompt_template_creation() {
    let prompt = PromptTemplate {
        server_id: 1,
        name: bytes(b"test-prompt"),
        description: Some(bytes(b"Test prompt description")),
        template: bytes(b"Hello {{name}}!"),
        parameter_schema: Some(bytes(b"{\"type\": \"object\"}")),
        category: Some(bytes(b"greeting")),
        metadata_cid: None,
        active: true,
    };

    assert_eq!(prompt.server_id, 1);
    assert_eq!(prompt.name.to_vec(), b"test-prompt".to_vec());
    assert_eq!(prompt.template.to_vec(), b"Hello {{name}}!".to_vec());
    assert!(prompt.active);
}

#[test]
fn test_resource_info_creation() {
    let resource = ResourceInfo {
        server_id: 1,
        name: bytes(b"test-resource"),
        description: Some(bytes(b"Test resource description")),
        uri: bytes(b"file://test.txt"),
        mime_type: Some(bytes(b"text/plain")),
        content_cid: bytes(b"QmTest123"),
        metadata_cid: None,
        active: true,
    };

    assert_eq!(resource.server_id, 1);
    assert_eq!(resource.name.to_vec(), b"test-resource".to_vec());
    assert_eq!(resource.uri.to_vec(), b"file://test.txt".to_vec());
    assert_eq!(resource.content_cid.to_vec(), b"QmTest123".to_vec());
    assert!(resource.active);
}

#[test]
fn test_types_implement_required_traits() {
    let _: ProtocolVersion = ProtocolVersion::v_2024_11_05();
    let _: ServerCapabilities = ServerCapabilities::default();
    let _: TransportConfig = TransportConfig::default();
}

#[test]
fn protocol_version_tokens_parse() {
    assert_eq!(ProtocolVersion::new(b"2024-11-05"), Ok(ProtocolVersion::V20241105));
    assert_eq!(ProtocolVersion::new(b"2025-03-26"), Ok(ProtocolVersion::V20250326));
    assert_eq!(
        ProtocolVersion::new(b"2025-06-18"),
        Err(ProtocolVersionError::UnsupportedVersion)
    );
    assert_eq!(ProtocolVersion::new(b""), Err(ProtocolVersionError::UnsupportedVersion));
    assert_eq!(
        ProtocolVersion::new(b"2024-11-05 "),
        Err(ProtocolVersionError::UnsupportedVersion)
    );
    assert_eq!(ProtocolVersion::latest(), ProtocolVersion::V20250326);
}

#[test]
fn protocol_version_token_round_trip() {
    for v in [ProtocolVersion::V20241105, ProtocolVersion::V20250326] {
        assert_eq!(ProtocolVersion::new(&v.token()), Ok(v));
    }
    assert_eq!(ProtocolVersion::V20250326.token(), b"2025-03-26".to_vec());
}

#[test]
fn bounded_bytes_rejects_over_capacity() {
    assert!(BoundedBytes::<4>::try_from_vec(vec![1, 2, 3, 4]).is_ok());
    let back = BoundedBytes::<4>::try_from_vec(vec![1, 2, 3, 4, 5]);
    assert_eq!(back, Err(vec![1, 2, 3, 4, 5]));
    let b = BoundedBytes::<8>::try_from_vec(b"Ab ".to_vec()).unwrap();
    assert_eq!(b.len(), 3);
    assert_eq!(b.as_slice(), b"Ab ");
    assert!(BoundedBytes::<8>::empty().is_empty());
    assert_eq!(b.clone(), b);
}

#[test]
fn default_annotations_are_unset() {
    let a = ToolAnnotations::default();
    assert!(a.title.is_none());
    assert!(a.read_only_hint.is_none());
    assert!(a.destructive_hint.is_none());
    assert!(a.idempotent_hint.is_none());
    assert!(a.open_world_hint.is_none());
}
