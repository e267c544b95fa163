use saorsa_quic_test::mcp::client::parse_pubkey;
use saorsa_quic_test::mcp::{get_all_tools, get_tools_for_category, McpToolCategory};

#[test]
fn test_tool_categorization() {
    assert_eq!(McpToolCategory::from_tool_name("authenticate"), McpToolCategory::Auth);
    assert_eq!(McpToolCategory::from_tool_name("create_entity"), McpToolCategory::Entities);
    assert_eq!(McpToolCategory::from_tool_name("send_message"), McpToolCategory::Messages);
    assert_eq!(McpToolCategory::from_tool_name("write_file"), McpToolCategory::Files);
    assert_eq!(McpToolCategory::from_tool_name("create_kanban_board"), McpToolCategory::Kanban);
    assert_eq!(McpToolCategory::from_tool_name("network_start"), McpToolCategory::Network);
    assert_eq!(McpToolCategory::from_tool_name("create_poll"), McpToolCategory::Social);
    assert_eq!(McpToolCategory::from_tool_name("announce_presence"), McpToolCategory::Network);
}

#[test]
fn test_category_display_names() {
    assert_eq!(McpToolCategory::Auth.display_name(), "Auth");
    assert_eq!(McpToolCategory::Entities.display_name(), "Entities");
}

#[test]
fn test_all_categories() {
    assert_eq!(McpToolCategory::all().len(), 7);
}

#[test]
fn test_parse_pubkey_hex() {
    let hex_key = "0123456789abcdef";
    let result = parse_pubkey(hex_key);
    assert!(result.is_ok());
    assert_eq!(result.unwrap(), vec![0x01, 0x23, 0x45, 0x67, 0x89, 0xab, 0xcd, 0xef]);
}

#[test]
fn test_parse_pubkey_invalid() {
    let invalid = "not_valid_hex_or_base64!!!";
    let result = parse_pubkey(invalid);
    assert!(result.is_err());
}

#[test]
fn pubkey_forms() {
    assert_eq!(parse_pubkey("0AfF").unwrap(), vec![0x0a, 0xff]);
    assert_eq!(parse_pubkey("AQID").unwrap(), vec![1, 2, 3]);
    assert_eq!(parse_pubkey("+/8=").unwrap(), vec![0xfb, 0xff]);
    assert_eq!(parse_pubkey("-_8=").unwrap(), vec![0xfb, 0xff]);
    assert_eq!(parse_pubkey("").unwrap(), Vec::<u8>::new());
}

#[test]
fn pubkey_error_messages() {
    assert_eq!(
        parse_pubkey("xyz!").unwrap_err(),
        "Invalid pubkey format: expected hex or base64, got 'xyz!'"
    );
    assert_eq!(
        parse_pubkey("not_valid_hex_or_base64!!!").unwrap_err(),
        "Invalid pubkey format: expected hex or base64, got 'not_valid_hex_or...'"
    );
}

#[test]
fn every_category_holds_its_count() {
    for c in McpToolCategory::all() {
        let tools = get_tools_for_category(c);
        assert_eq!(tools.len(), c.tool_count());
        assert!(tools.iter().all(|t| t.category == c && t.parameters.is_none()));
    }
    assert_eq!(get_all_tools().len(), 103);
    let first = &get_tools_for_category(McpToolCategory::Network)[0];
    assert_eq!(first.name, "network_start");
    assert_eq!(first.description, "Start P2P networking");
}

#[test]
fn unknown_tools_are_network_tools() {
    assert_eq!(McpToolCategory::from_tool_name("frobnicate"), McpToolCategory::Network);
    assert_eq!(McpToolCategory::from_tool_name("logout"), McpToolCategory::Auth);
    assert_eq!(McpToolCategory::from_tool_name("tag_card"), McpToolCategory::Kanban);
    assert_eq!(McpToolCategory::from_tool_name("join_call"), McpToolCategory::Social);
}
