use pallet_mcp::{
    Config, Error, Event, Pallet, ServerCapabilities, ToolsCapability, TransportConfig,
    BoundedBytes, ProtocolVersion,
};

fn config() -> Config {
    Config {
        max_servers_per_owner: 10,
        max_tools_per_server: 50,
        max_prompts_per_server: 20,
        max_resources_per_server: 100,
        max_name_length: 64,
        max_description_length: 256,
        max_schema_length: 1024,
        max_template_length: 2048,
        max_uri_length: 256,
        max_cid_length: 64,
    }
}

fn pallet() -> Pallet {
    Pallet::new(config()).unwrap()
}

fn add_server(p: &mut Pallet, owner: u64, name: &[u8]) -> Result<u64, Error> {
    p.register_server(
        owner,
        name.to_vec(),
        None,
        b"2025-03-26".to_vec(),
        ServerCapabilities::default(),
        TransportConfig::Stdio,
        None,
    )
}

fn add_tool(p: &mut Pallet, caller: u64, server: u64, name: &[u8]) -> Result<u64, Error> {
    p.register_tool(caller, server, name.to_vec(), None, b"{\"type\": \"object\"}".to_vec(), None, None, None)
}

#[test]
fn config_with_zero_length_is_refused() {
    let mut c = config();
    c.max_uri_length = 0;
    assert!(Pallet::new(c).is_none());
    assert!(Pallet::new(config()).is_some());
}

#[test]
fn weather_bot_scenario() {
    let mut p = pallet();
    let sid = p
        .register_server(
            5,
            b"weather-bot".to_vec(),
            None,
            b"2025-03-26".to_vec(),
            ServerCapabilities::default(),
            TransportConfig::Stdio,
            None,
        )
        .unwrap();
    assert_eq!(sid, 1);
    assert!(p.server(1).unwrap().active);
    assert_eq!(p.server(1).unwrap().protocol_version, ProtocolVersion::V20250326);

    let schema = b"{\"type\": \"object\"}  ".to_vec();
    assert_eq!(schema.len(), 20);
    let tid = p
        .register_tool(5, 1, b"get_forecast".to_vec(), None, schema.clone(), None, None, None)
        .unwrap();
    assert_eq!(tid, 1);
    let t = p.tool(1).unwrap();
    assert_eq!(t.server_id, 1);
    assert!(t.active);
    assert_eq!(t.input_schema.to_vec(), schema);

    assert_eq!(p.deactivate_server(5, 1), Ok(()));
    let r = p.register_resource(
        5,
        1,
        b"forecast".to_vec(),
        None,
        b"ipfs://x".to_vec(),
        None,
        b"QmTest123".to_vec(),
        None,
    );
    assert_eq!(r, Err(Error::ServerInactive));
}

#[test]
fn registered_server_reads_back() {
    let mut p = pallet();
    assert!(p.set_now(42));
    let caps = ServerCapabilities {
        tools: Some(ToolsCapability { list_changed: Some(true) }),
        logging: Some(false),
        ..Default::default()
    };
    let endpoint = BoundedBytes::<256>::try_from_vec(b"https://a.example".to_vec()).unwrap();
    let id = p
        .register_server(
            9,
            b"srv".to_vec(),
            Some(b"desc".to_vec()),
            b"2024-11-05".to_vec(),
            caps,
            TransportConfig::Http { endpoint: endpoint.clone() },
            Some(b"QmMeta".to_vec()),
        )
        .unwrap();
    let s = p.server(id).unwrap();
    assert_eq!(s.owner, 9);
    assert_eq!(s.name.to_vec(), b"srv".to_vec());
    assert_eq!(s.description.as_ref().unwrap().to_vec(), b"desc".to_vec());
    assert_eq!(s.protocol_version, ProtocolVersion::V20241105);
    assert_eq!(s.capabilities, caps);
    assert_eq!(s.transport, TransportConfig::Http { endpoint });
    assert_eq!(s.metadata_cid.as_ref().unwrap().to_vec(), b"QmMeta".to_vec());
    assert!(s.active);
    assert_eq!(s.created_at, 42);
    assert_eq!(s.updated_at, 42);
    assert_eq!(p.events().as_slice(), &[Event::ServerRegistered { server_id: 1, owner: 9 }]);
}

#[test]
fn too_long_fields_are_rejected_without_change() {
    let mut p = pallet();
    let long_name = vec![b'a'; 65];
    assert_eq!(add_server(&mut p, 1, &long_name), Err(Error::TooLong));
    let r = p.register_server(
        1,
        b"x".to_vec(),
        Some(vec![0u8; 257]),
        b"2025-03-26".to_vec(),
        ServerCapabilities::default(),
        TransportConfig::Stdio,
        None,
    );
    assert_eq!(r, Err(Error::TooLong));
    let r = p.register_server(
        1,
        b"x".to_vec(),
        None,
        b"2025-03-26".to_vec(),
        ServerCapabilities::default(),
        TransportConfig::Stdio,
        Some(vec![0u8; 65]),
    );
    assert_eq!(r, Err(Error::TooLong));
    assert_eq!(p.server_count(), 0);
    assert!(p.events().is_empty());
    // exactly at the limit is accepted
    assert_eq!(add_server(&mut p, 1, &vec![b'a'; 64]), Ok(1));
    // a schema over the configured limit, though within capacity
    assert_eq!(
        p.register_tool(1, 1, b"t".to_vec(), None, vec![b' '; 1025], None, None, None),
        Err(Error::TooLong)
    );
    assert_eq!(p.tool_count(), 0);
}

#[test]
fn unsupported_version_is_rejected() {
    let mut p = pallet();
    let r = p.register_server(
        1,
        b"x".to_vec(),
        None,
        b"1.0".to_vec(),
        ServerCapabilities::default(),
        TransportConfig::Stdio,
        None,
    );
    assert_eq!(r, Err(Error::UnsupportedVersion));
    assert_eq!(p.server_count(), 0);
}

#[test]
fn owner_quota_is_enforced() {
    let mut p = pallet();
    let mut ids = Vec::new();
    for i in 0..10u8 {
        ids.push(add_server(&mut p, 3, &[b's', i]).unwrap());
    }
    assert_eq!(ids, (1..=10).collect::<Vec<u64>>());
    assert_eq!(add_server(&mut p, 3, b"one-more"), Err(Error::QuotaExceeded));
    assert_eq!(p.server_count(), 10);
    // another owner is not affected
    assert_eq!(add_server(&mut p, 4, b"other"), Ok(11));
    // deactivated servers still count
    p.deactivate_server(3, 1).unwrap();
    assert_eq!(add_server(&mut p, 3, b"again"), Err(Error::QuotaExceeded));
}

#[test]
fn update_by_non_owner_changes_nothing() {
    let mut p = pallet();
    add_server(&mut p, 1, b"mine").unwrap();
    let before = p.server(1).unwrap().clone();
    let r = p.update_server(2, 1, Some(b"theirs".to_vec()), None, None, None, None, None);
    assert_eq!(r, Err(Error::NotOwner));
    assert_eq!(p.server(1).unwrap(), &before);
    assert_eq!(p.events().len(), 1);
    assert_eq!(p.deactivate_server(2, 1), Err(Error::NotOwner));
    assert!(p.server(1).unwrap().active);
}

#[test]
fn update_server_replaces_supplied_fields() {
    let mut p = pallet();
    p.set_now(3);
    add_server(&mut p, 1, b"old").unwrap();
    p.set_now(8);
    assert!(!p.set_now(5));
    assert_eq!(p.now(), 8);
    let r = p.update_server(
        1,
        1,
        Some(b"new".to_vec()),
        Some(b"about".to_vec()),
        Some(b"2024-11-05".to_vec()),
        None,
        None,
        None,
    );
    assert_eq!(r, Ok(()));
    let s = p.server(1).unwrap();
    assert_eq!(s.name.to_vec(), b"new".to_vec());
    assert_eq!(s.description.as_ref().unwrap().to_vec(), b"about".to_vec());
    assert_eq!(s.protocol_version, ProtocolVersion::V20241105);
    assert_eq!(s.transport, TransportConfig::Stdio);
    assert_eq!(s.created_at, 3);
    assert_eq!(s.updated_at, 8);
    assert_eq!(p.update_server(1, 9, None, None, None, None, None, None), Err(Error::NotFound));
    assert_eq!(
        p.update_server(1, 1, None, None, Some(b"2026".to_vec()), None, None, None),
        Err(Error::UnsupportedVersion)
    );
    assert_eq!(
        p.update_server(1, 1, Some(vec![0u8; 65]), None, None, None, None, None),
        Err(Error::TooLong)
    );
    assert_eq!(p.server(1).unwrap().name.to_vec(), b"new".to_vec());
}

#[test]
fn deactivation_keeps_tools_but_blocks_new_ones() {
    let mut p = pallet();
    add_server(&mut p, 1, b"s").unwrap();
    add_tool(&mut p, 1, 1, b"t").unwrap();
    assert!(p.tool_usable(1));
    p.deactivate_server(1, 1).unwrap();
    assert!(p.tool(1).is_some());
    assert!(p.tool(1).unwrap().active);
    assert!(!p.tool_usable(1));
    assert_eq!(add_tool(&mut p, 1, 1, b"u"), Err(Error::ServerInactive));
    assert_eq!(
        p.register_prompt(1, 1, b"p".to_vec(), None, b"Hi".to_vec(), None, None, None),
        Err(Error::ServerInactive)
    );
    assert_eq!(p.tool_count(), 1);
}

#[test]
fn child_registration_errors() {
    let mut p = pallet();
    add_server(&mut p, 1, b"s").unwrap();
    assert_eq!(add_tool(&mut p, 1, 2, b"t"), Err(Error::ServerNotFound));
    assert_eq!(add_tool(&mut p, 2, 1, b"t"), Err(Error::NotOwner));
    let r = p.register_resource(1, 1, b"r".to_vec(), None, b"file://a".to_vec(), None, Vec::new(), None);
    assert_eq!(r, Err(Error::MissingContentReference));
    let r = p.register_prompt(1, 1, b"p".to_vec(), None, b"t".to_vec(), None, Some(vec![b'c'; 33]), None);
    assert_eq!(r, Err(Error::TooLong));
    assert_eq!(p.resource_count(), 0);
    assert_eq!(p.prompt_count(), 0);
}

#[test]
fn tool_quota_is_per_server() {
    let mut c = config();
    c.max_tools_per_server = 2;
    let mut p = Pallet::new(c).unwrap();
    add_server(&mut p, 1, b"a").unwrap();
    add_server(&mut p, 1, b"b").unwrap();
    assert_eq!(add_tool(&mut p, 1, 1, b"t1"), Ok(1));
    assert_eq!(add_tool(&mut p, 1, 1, b"t2"), Ok(2));
    assert_eq!(add_tool(&mut p, 1, 1, b"t3"), Err(Error::QuotaExceeded));
    assert_eq!(add_tool(&mut p, 1, 2, b"t3"), Ok(3));
}

#[test]
fn tool_update_and_deactivate() {
    let mut p = pallet();
    add_server(&mut p, 1, b"s").unwrap();
    add_tool(&mut p, 1, 1, b"t").unwrap();
    assert_eq!(
        p.update_tool(2, 1, Some(b"x".to_vec()), None, None, None, None, None),
        Err(Error::NotOwner)
    );
    assert_eq!(p.update_tool(1, 7, None, None, None, None, None, None), Err(Error::NotFound));
    assert_eq!(
        p.update_tool(1, 1, Some(b"x".to_vec()), None, Some(b"{}".to_vec()), None, None, None),
        Ok(())
    );
    let t = p.tool(1).unwrap();
    assert_eq!(t.name.to_vec(), b"x".to_vec());
    assert_eq!(t.input_schema.to_vec(), b"{}".to_vec());
    assert_eq!(p.deactivate_tool(1, 1), Ok(()));
    assert!(!p.tool(1).unwrap().active);
    assert!(!p.tool_usable(1));
    assert_eq!(
        p.events().last(),
        Some(&Event::ToolDeactivated { tool_id: 1 })
    );
}

#[test]
fn prompt_lifecycle() {
    let mut p = pallet();
    add_server(&mut p, 1, b"s").unwrap();
    let id = p
        .register_prompt(
            1,
            1,
            b"test-prompt".to_vec(),
            Some(b"Test prompt description".to_vec()),
            b"Hello {{name}}!".to_vec(),
            Some(b"{\"type\": \"object\"}".to_vec()),
            Some(b"greeting".to_vec()),
            None,
        )
        .unwrap();
    assert_eq!(id, 1);
    let pr = p.prompt(1).unwrap();
    assert_eq!(pr.template.to_vec(), b"Hello {{name}}!".to_vec());
    assert_eq!(pr.category.as_ref().unwrap().to_vec(), b"greeting".to_vec());
    assert!(p.prompt_usable(1));
    assert_eq!(
        p.update_prompt(1, 1, None, None, Some(b"Bye {{name}}".to_vec()), None, None, None),
        Ok(())
    );
    assert_eq!(p.prompt(1).unwrap().template.to_vec(), b"Bye {{name}}".to_vec());
    assert_eq!(p.deactivate_prompt(2, 1), Err(Error::NotOwner));
    assert_eq!(p.deactivate_prompt(1, 1), Ok(()));
    assert!(!p.prompt_usable(1));
}

#[test]
fn resource_lifecycle() {
    let mut p = pallet();
    add_server(&mut p, 1, b"s").unwrap();
    let id = p
        .register_resource(
            1,
            1,
            b"test-resource".to_vec(),
            None,
            b"file://test.txt".to_vec(),
            Some(b"text/plain".to_vec()),
            b"QmTest123".to_vec(),
            None,
        )
        .unwrap();
    assert_eq!(id, 1);
    let r = p.resource(1).unwrap();
    assert_eq!(r.content_cid.to_vec(), b"QmTest123".to_vec());
    assert_eq!(r.mime_type.as_ref().unwrap().to_vec(), b"text/plain".to_vec());
    assert_eq!(
        p.update_resource(1, 1, None, None, None, None, Some(Vec::new()), None),
        Err(Error::MissingContentReference)
    );
    assert_eq!(
        p.update_resource(1, 1, None, None, Some(vec![b'u'; 257]), None, None, None),
        Err(Error::TooLong)
    );
    assert_eq!(
        p.update_resource(1, 1, None, None, None, None, Some(b"QmOther".to_vec()), None),
        Ok(())
    );
    assert_eq!(p.resource(1).unwrap().content_cid.to_vec(), b"QmOther".to_vec());
    assert!(p.resource_usable(1));
    assert_eq!(p.deactivate_resource(1, 1), Ok(()));
    assert!(!p.resource_usable(1));
    assert_eq!(p.deactivate_resource(1, 2), Err(Error::NotFound));
}
