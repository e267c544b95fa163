//! Catalogue of the MCP tools offered by Communitas, with helpers for the
//! client that invokes them.

use vstd::prelude::*;
use vstd::string::StringSliceAdditionalSpecFns;
use crate::text::{has_prefix, has_substring, starts_with, contains, str_eq, owned, concat2, concat3};

verus! {

/// `serde_json::Value`, carried through opaquely.
#[verifier::external_type_specification]
#[verifier::external_body]
pub struct ExJsonValue(serde_json::Value);

/// `std::path::PathBuf`, carried through opaquely.
#[verifier::external_type_specification]
#[verifier::external_body]
pub struct ExPathBuf(std::path::PathBuf);

/// Groups of MCP tools, in display order.
#[derive(Debug, Clone, Copy, PartialEq, Eq, Hash, Structural)]
pub enum McpToolCategory {
    /// Authentication and vault management.
    Auth,
    /// Entity, group and channel management.
    Entities,
    /// Messaging and threads.
    Messages,
    /// File operations.
    Files,
    /// Kanban project management.
    Kanban,
    /// Network and DHT operations.
    Network,
    /// Social features and calls.
    Social,
}

/// The categories in display order.
pub open spec fn all_categories() -> Seq<McpToolCategory> {
    seq![
        McpToolCategory::Auth,
        McpToolCategory::Entities,
        McpToolCategory::Messages,
        McpToolCategory::Files,
        McpToolCategory::Kanban,
        McpToolCategory::Network,
        McpToolCategory::Social,
    ]
}

/// The name a category is displayed under.
pub open spec fn category_name(c: McpToolCategory) -> Seq<char> {
    match c {
        McpToolCategory::Auth => "Auth"@,
        McpToolCategory::Entities => "Entities"@,
        McpToolCategory::Messages => "Messages"@,
        McpToolCategory::Files => "Files"@,
        McpToolCategory::Kanban => "Kanban"@,
        McpToolCategory::Network => "Network"@,
        McpToolCategory::Social => "Social"@,
    }
}

/// The number of tools a category holds.
pub open spec fn category_size(c: McpToolCategory) -> nat {
    match c {
        McpToolCategory::Auth => 8,
        McpToolCategory::Entities => 16,
        McpToolCategory::Messages => 14,
        McpToolCategory::Files => 6,
        McpToolCategory::Kanban => 23,
        McpToolCategory::Network => 26,
        McpToolCategory::Social => 10,
    }
}

/// The category a tool name falls in; unknown names count as network
/// tools.
pub open spec fn category_of(n: Seq<char>) -> McpToolCategory {
    if has_prefix(n, "authenticate"@) || has_prefix(n, "create_vault"@) || has_prefix(n, "list_vault"@)
        || has_prefix(n, "delete_vault"@) || has_prefix(n, "import_vault"@) || has_prefix(n, "export_vault"@)
        || n == "health_check"@ || n == "core_status"@ || n == "get_session"@ || n == "logout"@ {
        McpToolCategory::Auth
    } else if has_substring(n, "entity"@) || has_substring(n, "member"@) || n == "join_entity"@ {
        McpToolCategory::Entities
    } else if has_substring(n, "message"@) || has_substring(n, "thread"@) || has_substring(n, "reaction"@)
        || n == "get_unread_count"@ {
        McpToolCategory::Messages
    } else if has_substring(n, "file"@) || n == "get_disk_stats"@ || has_substring(n, "upload"@) {
        McpToolCategory::Files
    } else if has_substring(n, "kanban"@) || has_substring(n, "card"@) || has_substring(n, "column"@)
        || has_substring(n, "board"@) || has_substring(n, "step"@) || has_substring(n, "tag"@) {
        McpToolCategory::Kanban
    } else if has_prefix(n, "network_"@) || has_prefix(n, "dht_"@) || has_substring(n, "metrics"@)
        || has_substring(n, "trust"@) || has_substring(n, "placement"@) || has_substring(n, "presence"@) {
        McpToolCategory::Network
    } else if has_substring(n, "poll"@) || has_substring(n, "story"@) || has_substring(n, "call"@)
        || has_substring(n, "location"@) || has_substring(n, "screen"@) || has_substring(n, "presentation"@)
        || has_substring(n, "website"@) || has_substring(n, "workspace"@) {
        McpToolCategory::Social
    } else {
        McpToolCategory::Network
    }
}

/// The tools of a category, as `(name, description)`, in catalogue order.
pub open spec fn tool_table(c: McpToolCategory) -> Seq<(Seq<char>, Seq<char>)> {
    match c {
        McpToolCategory::Auth => seq![
            ("authenticate"@, "Authenticate with vault password"@),
            ("create_vault"@, "Create a new identity vault"@),
            ("authenticate_token"@, "Authenticate with delegate token"@),
            ("health_check"@, "Check MCP server health"@),
            ("core_status"@, "Get core system status"@),
            ("list_vaults"@, "List available vaults"@),
            ("delete_vault"@, "Delete a vault"@),
            ("import_vault"@, "Import a vault from backup"@),
        ],
        McpToolCategory::Entities => seq![
            ("create_entity"@, "Create org/project/group/channel"@),
            ("update_entity"@, "Update entity details"@),
            ("delete_entity"@, "Delete an entity"@),
            ("get_entity"@, "Get entity details"@),
            ("list_entities"@, "List all entities"@),
            ("add_member"@, "Add member to entity"@),
            ("remove_member"@, "Remove member from entity"@),
            ("list_members"@, "List entity members"@),
            ("join_entity"@, "Join an entity"@),
            ("create_invite"@, "Create entity invite"@),
            ("accept_invite"@, "Accept an invite"@),
            ("list_pending_invites"@, "List pending invites"@),
            ("get_profile"@, "Get user profile"@),
            ("update_profile"@, "Update user profile"@),
            ("create_delegate_token"@, "Create delegate token"@),
            ("export_vault"@, "Export vault backup"@),
        ],
        McpToolCategory::Messages => seq![
            ("send_message"@, "Send a message"@),
            ("delete_message"@, "Delete a message"@),
            ("edit_message"@, "Edit a message"@),
            ("get_messages"@, "Get messages for entity"@),
            ("create_thread"@, "Create a message thread"@),
            ("get_thread_messages"@, "Get thread messages"@),
            ("add_reaction"@, "Add reaction to message"@),
            ("remove_reaction"@, "Remove reaction"@),
            ("get_reactions"@, "Get message reactions"@),
            ("create_custom_reaction"@, "Create custom reaction"@),
            ("get_available_reactions"@, "List available reactions"@),
            ("get_unread_count"@, "Get unread message count"@),
            ("create_contact"@, "Create a contact"@),
            ("list_contacts"@, "List all contacts"@),
        ],
        McpToolCategory::Files => seq![
            ("write_file"@, "Write file to virtual disk"@),
            ("read_file"@, "Read file from virtual disk"@),
            ("list_files"@, "List files in directory"@),
            ("delete_file"@, "Delete a file"@),
            ("get_disk_stats"@, "Get disk usage stats"@),
            ("upload_with_metadata"@, "Upload with metadata"@),
        ],
        McpToolCategory::Kanban => seq![
            ("create_kanban_board"@, "Create kanban board"@),
            ("update_kanban_board"@, "Update board details"@),
            ("delete_kanban_board"@, "Delete a board"@),
            ("list_kanban_boards"@, "List all boards"@),
            ("get_kanban_board"@, "Get board details"@),
            ("create_kanban_card"@, "Create a card"@),
            ("update_kanban_card"@, "Update card details"@),
            ("delete_kanban_card"@, "Delete a card"@),
            ("list_kanban_cards"@, "List cards on board"@),
            ("move_kanban_card"@, "Move card between columns"@),
            ("get_kanban_card"@, "Get card details"@),
            ("create_kanban_column"@, "Create a column"@),
            ("list_kanban_columns"@, "List board columns"@),
            ("get_kanban_column"@, "Get column details"@),
            ("update_kanban_column"@, "Update column"@),
            ("delete_kanban_column"@, "Delete a column"@),
            ("move_kanban_column"@, "Reorder columns"@),
            ("change_card_state"@, "Change card state"@),
            ("assign_user"@, "Assign user to card"@),
            ("unassign_user"@, "Unassign user from card"@),
            ("create_kanban_tag"@, "Create a tag"@),
            ("list_kanban_tags"@, "List board tags"@),
            ("tag_card"@, "Add tag to card"@),
        ],
        McpToolCategory::Network => seq![
            ("network_start"@, "Start P2P networking"@),
            ("network_stop"@, "Stop networking"@),
            ("network_status"@, "Get network status"@),
            ("network_connect"@, "Connect to peer"@),
            ("network_disconnect"@, "Disconnect from peer"@),
            ("network_peers"@, "List connected peers"@),
            ("network_request_external_address"@, "Request external address"@),
            ("get_connection_words"@, "Get your connection words"@),
            ("connect_by_words"@, "Connect using 4-word address"@),
            ("announce_presence"@, "Announce presence to network"@),
            ("query_presence"@, "Query peer presence by pubkey"@),
            ("get_our_presence"@, "Get our presence record"@),
            ("get_cached_presence"@, "Get cached peer presence"@),
            ("dht_start"@, "Start DHT"@),
            ("dht_stop"@, "Stop DHT"@),
            ("dht_status"@, "Get DHT status"@),
            ("dht_store"@, "Store value in DHT"@),
            ("dht_retrieve"@, "Retrieve from DHT"@),
            ("dht_exists"@, "Check if key exists"@),
            ("dht_closest_peers"@, "Get closest peers to key"@),
            ("dht_health_metrics"@, "Get DHT health"@),
            ("dht_network_stats"@, "Get DHT network stats"@),
            ("security_metrics"@, "Get security metrics"@),
            ("trust_metrics"@, "Get trust metrics"@),
            ("placement_metrics"@, "Get placement metrics"@),
            ("metrics_summary"@, "Get metrics summary"@),
        ],
        McpToolCategory::Social => seq![
            ("create_poll"@, "Create a poll"@),
            ("vote_in_poll"@, "Vote in a poll"@),
            ("create_story"@, "Create a story"@),
            ("get_media_metadata"@, "Get media metadata"@),
            ("share_location"@, "Share location"@),
            ("share_screen"@, "Share screen"@),
            ("start_presentation"@, "Start presentation"@),
            ("start_voice_call"@, "Start voice call"@),
            ("join_call"@, "Join a call"@),
            ("end_call"@, "End a call"@),
        ],
    }
}

/// Every category lists as many tools as it counts, and the categories
/// are seven.
pub proof fn lemma_tool_counts()
    ensures
        forall|c: McpToolCategory| #[trigger] tool_table(c).len() == category_size(c),
        all_categories().len() == 7,
{
    assert forall|c: McpToolCategory| #[trigger] tool_table(c).len() == category_size(c) by {
        match c {
            McpToolCategory::Auth => {},
            McpToolCategory::Entities => {},
            McpToolCategory::Messages => {},
            McpToolCategory::Files => {},
            McpToolCategory::Kanban => {},
            McpToolCategory::Network => {},
            McpToolCategory::Social => {},
        }
    }
}

impl McpToolCategory {
    /// All categories, in display order.
    pub fn all() -> (r: Vec<McpToolCategory>)
        ensures
            r@ == all_categories(),
    {
        let r = vec![
            McpToolCategory::Auth,
            McpToolCategory::Entities,
            McpToolCategory::Messages,
            McpToolCategory::Files,
            McpToolCategory::Kanban,
            McpToolCategory::Network,
            McpToolCategory::Social,
        ];
        assert(r@ =~= all_categories());
        r
    }

    /// The name the category is displayed under.
    pub fn display_name(&self) -> (s: &'static str)
        ensures
            s@ == category_name(*self),
    {
        match self {
            McpToolCategory::Auth => "Auth",
            McpToolCategory::Entities => "Entities",
            McpToolCategory::Messages => "Messages",
            McpToolCategory::Files => "Files",
            McpToolCategory::Kanban => "Kanban",
            McpToolCategory::Network => "Network",
            McpToolCategory::Social => "Social",
        }
    }

    /// The number of tools in the category.
    pub fn tool_count(&self) -> (n: usize)
        ensures
            n == category_size(*self),
    {
        match self {
            McpToolCategory::Auth => 8,
            McpToolCategory::Entities => 16,
            McpToolCategory::Messages => 14,
            McpToolCategory::Files => 6,
            McpToolCategory::Kanban => 23,
            McpToolCategory::Network => 26,
            McpToolCategory::Social => 10,
        }
    }

    /// The category a tool name falls in (see [`category_of`]).
    pub fn from_tool_name(name: &str) -> (c: Self)
        ensures
            c == category_of(name@),
    {
        if starts_with(name, "authenticate") || starts_with(name, "create_vault") || starts_with(name, "list_vault")
            || starts_with(name, "delete_vault") || starts_with(name, "import_vault") || starts_with(name, "export_vault")
            || str_eq(name, "health_check") || str_eq(name, "core_status") || str_eq(name, "get_session")
            || str_eq(name, "logout") {
            McpToolCategory::Auth
        } else if contains(name, "entity") || contains(name, "member") || str_eq(name, "join_entity") {
            McpToolCategory::Entities
        } else if contains(name, "message") || contains(name, "thread") || contains(name, "reaction")
            || str_eq(name, "get_unread_count") {
            McpToolCategory::Messages
        } else if contains(name, "file") || str_eq(name, "get_disk_stats") || contains(name, "upload") {
            McpToolCategory::Files
        } else if contains(name, "kanban") || contains(name, "card") || contains(name, "column")
            || contains(name, "board") || contains(name, "step") || contains(name, "tag") {
            McpToolCategory::Kanban
        } else if starts_with(name, "network_") || starts_with(name, "dht_") || contains(name, "metrics")
            || contains(name, "trust") || contains(name, "placement") || contains(name, "presence") {
            McpToolCategory::Network
        } else if contains(name, "poll") || contains(name, "story") || contains(name, "call")
            || contains(name, "location") || contains(name, "screen") || contains(name, "presentation")
            || contains(name, "website") || contains(name, "workspace") {
            McpToolCategory::Social
        } else {
            McpToolCategory::Network
        }
    }
}

/// Description of an MCP tool.
pub struct ToolInfo {
    /// Tool name, such as `send_message`.
    pub name: String,
    /// What the tool does.
    pub description: String,
    /// Its category.
    pub category: McpToolCategory,
    /// JSON Schema of its parameters, if known.
    pub parameters: Option<serde_json::Value>,
}

/// Name, description and category of each tool; whether parameters are known.
pub open spec fn tool_views(s: Seq<ToolInfo>) -> Seq<(Seq<char>, Seq<char>, McpToolCategory, bool)> {
    s.map_values(|t: ToolInfo| (t.name@, t.description@, t.category, t.parameters is Some))
}

/// The entries of `table` as tools of category `c`, without parameters.
pub open spec fn as_tools(table: Seq<(Seq<char>, Seq<char>)>, c: McpToolCategory) -> Seq<(Seq<char>, Seq<char>, McpToolCategory, bool)> {
    table.map_values(|e: (Seq<char>, Seq<char>)| (e.0, e.1, c, false))
}

/// Appends the tool `name` of `category`.
fn push_tool(v: &mut Vec<ToolInfo>, name: &str, description: &str, category: McpToolCategory)
    ensures
        tool_views(final(v)@) == tool_views(old(v)@).push((name@, description@, category, false)),
{
    v.push(ToolInfo { name: owned(name), description: owned(description), category, parameters: None });
    assert(tool_views(v@) =~= tool_views(old(v)@).push((name@, description@, category, false)));
}

/// The tools of `category`, in catalogue order, without parameter schemas.
pub fn get_tools_for_category(category: McpToolCategory) -> (r: Vec<ToolInfo>)
    ensures
        tool_views(r@) == as_tools(tool_table(category), category),
        r@.len() == category_size(category),
{
    let mut v: Vec<ToolInfo> = Vec::new();
    match category {
            McpToolCategory::Auth => {
                push_tool(&mut v, "authenticate", "Authenticate with vault password", category);
                push_tool(&mut v, "create_vault", "Create a new identity vault", category);
                push_tool(&mut v, "authenticate_token", "Authenticate with delegate token", category);
                push_tool(&mut v, "health_check", "Check MCP server health", category);
                push_tool(&mut v, "core_status", "Get core system status", category);
                push_tool(&mut v, "list_vaults", "List available vaults", category);
                push_tool(&mut v, "delete_vault", "Delete a vault", category);
                push_tool(&mut v, "import_vault", "Import a vault from backup", category);
            },
            McpToolCategory::Entities => {
                push_tool(&mut v, "create_entity", "Create org/project/group/channel", category);
                push_tool(&mut v, "update_entity", "Update entity details", category);
                push_tool(&mut v, "delete_entity", "Delete an entity", category);
                push_tool(&mut v, "get_entity", "Get entity details", category);
                push_tool(&mut v, "list_entities", "List all entities", category);
                push_tool(&mut v, "add_member", "Add member to entity", category);
                push_tool(&mut v, "remove_member", "Remove member from entity", category);
                push_tool(&mut v, "list_members", "List entity members", category);
                push_tool(&mut v, "join_entity", "Join an entity", category);
                push_tool(&mut v, "create_invite", "Create entity invite", category);
                push_tool(&mut v, "accept_invite", "Accept an invite", category);
                push_tool(&mut v, "list_pending_invites", "List pending invites", category);
                push_tool(&mut v, "get_profile", "Get user profile", category);
                push_tool(&mut v, "update_profile", "Update user profile", category);
                push_tool(&mut v, "create_delegate_token", "Create delegate token", category);
                push_tool(&mut v, "export_vault", "Export vault backup", category);
            },
            McpToolCategory::Messages => {
                push_tool(&mut v, "send_message", "Send a message", category);
                push_tool(&mut v, "delete_message", "Delete a message", category);
                push_tool(&mut v, "edit_message", "Edit a message", category);
                push_tool(&mut v, "get_messages", "Get messages for entity", category);
                push_tool(&mut v, "create_thread", "Create a message thread", category);
                push_tool(&mut v, "get_thread_messages", "Get thread messages", category);
                push_tool(&mut v, "add_reaction", "Add reaction to message", category);
                push_tool(&mut v, "remove_reaction", "Remove reaction", category);
                push_tool(&mut v, "get_reactions", "Get message reactions", category);
                push_tool(&mut v, "create_custom_reaction", "Create custom reaction", category);
                push_tool(&mut v, "get_available_reactions", "List available reactions", category);
                push_tool(&mut v, "get_unread_count", "Get unread message count", category);
                push_tool(&mut v, "create_contact", "Create a contact", category);
                push_tool(&mut v, "list_contacts", "List all contacts", category);
            },
            McpToolCategory::Files => {
                push_tool(&mut v, "write_file", "Write file to virtual disk", category);
                push_tool(&mut v, "read_file", "Read file from virtual disk", category);
                push_tool(&mut v, "list_files", "List files in directory", category);
                push_tool(&mut v, "delete_file", "Delete a file", category);
                push_tool(&mut v, "get_disk_stats", "Get disk usage stats", category);
                push_tool(&mut v, "upload_with_metadata", "Upload with metadata", category);
            },
            McpToolCategory::Kanban => {
                push_tool(&mut v, "create_kanban_board", "Create kanban board", category);
                push_tool(&mut v, "update_kanban_board", "Update board details", category);
                push_tool(&mut v, "delete_kanban_board", "Delete a board", category);
                push_tool(&mut v, "list_kanban_boards", "List all boards", category);
                push_tool(&mut v, "get_kanban_board", "Get board details", category);
                push_tool(&mut v, "create_kanban_card", "Create a card", category);
                push_tool(&mut v, "update_kanban_card", "Update card details", category);
                push_tool(&mut v, "delete_kanban_card", "Delete a card", category);
                push_tool(&mut v, "list_kanban_cards", "List cards on board", category);
                push_tool(&mut v, "move_kanban_card", "Move card between columns", category);
                push_tool(&mut v, "get_kanban_card", "Get card details", category);
                push_tool(&mut v, "create_kanban_column", "Create a column", category);
                push_tool(&mut v, "list_kanban_columns", "List board columns", category);
                push_tool(&mut v, "get_kanban_column", "Get column details", category);
                push_tool(&mut v, "update_kanban_column", "Update column", category);
                push_tool(&mut v, "delete_kanban_column", "Delete a column", category);
                push_tool(&mut v, "move_kanban_column", "Reorder columns", category);
                push_tool(&mut v, "change_card_state", "Change card state", category);
                push_tool(&mut v, "assign_user", "Assign user to card", category);
                push_tool(&mut v, "unassign_user", "Unassign user from card", category);
                push_tool(&mut v, "create_kanban_tag", "Create a tag", category);
                push_tool(&mut v, "list_kanban_tags", "List board tags", category);
                push_tool(&mut v, "tag_card", "Add tag to card", category);
            },
            McpToolCategory::Network => {
                push_tool(&mut v, "network_start", "Start P2P networking", category);
                push_tool(&mut v, "network_stop", "Stop networking", category);
                push_tool(&mut v, "network_status", "Get network status", category);
                push_tool(&mut v, "network_connect", "Connect to peer", category);
                push_tool(&mut v, "network_disconnect", "Disconnect from peer", category);
                push_tool(&mut v, "network_peers", "List connected peers", category);
                push_tool(&mut v, "network_request_external_address", "Request external address", category);
                push_tool(&mut v, "get_connection_words", "Get your connection words", category);
                push_tool(&mut v, "connect_by_words", "Connect using 4-word address", category);
                push_tool(&mut v, "announce_presence", "Announce presence to network", category);
                push_tool(&mut v, "query_presence", "Query peer presence by pubkey", category);
                push_tool(&mut v, "get_our_presence", "Get our presence record", category);
                push_tool(&mut v, "get_cached_presence", "Get cached peer presence", category);
                push_tool(&mut v, "dht_start", "Start DHT", category);
                push_tool(&mut v, "dht_stop", "Stop DHT", category);
                push_tool(&mut v, "dht_status", "Get DHT status", category);
                push_tool(&mut v, "dht_store", "Store value in DHT", category);
                push_tool(&mut v, "dht_retrieve", "Retrieve from DHT", category);
                push_tool(&mut v, "dht_exists", "Check if key exists", category);
                push_tool(&mut v, "dht_closest_peers", "Get closest peers to key", category);
                push_tool(&mut v, "dht_health_metrics", "Get DHT health", category);
                push_tool(&mut v, "dht_network_stats", "Get DHT network stats", category);
                push_tool(&mut v, "security_metrics", "Get security metrics", category);
                push_tool(&mut v, "trust_metrics", "Get trust metrics", category);
                push_tool(&mut v, "placement_metrics", "Get placement metrics", category);
                push_tool(&mut v, "metrics_summary", "Get metrics summary", category);
            },
            McpToolCategory::Social => {
                push_tool(&mut v, "create_poll", "Create a poll", category);
                push_tool(&mut v, "vote_in_poll", "Vote in a poll", category);
                push_tool(&mut v, "create_story", "Create a story", category);
                push_tool(&mut v, "get_media_metadata", "Get media metadata", category);
                push_tool(&mut v, "share_location", "Share location", category);
                push_tool(&mut v, "share_screen", "Share screen", category);
                push_tool(&mut v, "start_presentation", "Start presentation", category);
                push_tool(&mut v, "start_voice_call", "Start voice call", category);
                push_tool(&mut v, "join_call", "Join a call", category);
                push_tool(&mut v, "end_call", "End a call", category);
            },
    }
    assert(tool_views(v@) =~= as_tools(tool_table(category), category));
    v
}

/// The tools of the categories `cats`, category by category.
pub open spec fn catalogue(cats: Seq<McpToolCategory>) -> Seq<(Seq<char>, Seq<char>, McpToolCategory, bool)>
    decreases cats.len(),
{
    if cats.len() == 0 {
        Seq::empty()
    } else {
        catalogue(cats.drop_last()) + as_tools(tool_table(cats.last()), cats.last())
    }
}

/// The tools of every category, category by category in display order.
pub fn get_all_tools() -> (r: Vec<ToolInfo>)
    ensures
        tool_views(r@) == catalogue(all_categories()),
{
    let cats = McpToolCategory::all();
    let mut tools: Vec<ToolInfo> = Vec::new();
    let mut i: usize = 0;
    assert(all_categories().take(0) =~= Seq::<McpToolCategory>::empty());
    assert(tool_views(tools@) =~= Seq::<(Seq<char>, Seq<char>, McpToolCategory, bool)>::empty());
    while i < cats.len()
        invariant
            cats@ == all_categories(),
            0 <= i <= cats@.len(),
            tool_views(tools@) == catalogue(all_categories().take(i as int)),
        decreases cats@.len() - i,
    {
        let c = cats[i];
        let mut more = get_tools_for_category(c);
        let ghost before = tool_views(tools@);
        let ghost added = tool_views(more@);
        tools.append(&mut more);
        assert(tool_views(tools@) =~= before + added);
        assert(all_categories().take(i + 1).drop_last() =~= all_categories().take(i as int));
        assert(all_categories().take(i + 1).last() == c);
        i = i + 1;
    }
    assert(all_categories().take(cats@.len() as int) =~= all_categories());
    tools
}

// ---------------------------------------------------------------------------
// Public keys
// ---------------------------------------------------------------------------

/// Value of a hexadecimal digit (either case), or -1 for another character.
pub open spec fn hex_digit_value(c: char) -> int {
    if '0' <= c && c <= '9' {
        c as int - '0' as int
    } else if 'a' <= c && c <= 'f' {
        c as int - 'a' as int + 10
    } else if 'A' <= c && c <= 'F' {
        c as int - 'A' as int + 10
    } else {
        -1
    }
}

/// The bytes a hexadecimal text stands for: an even number of hex digits
/// of either case, two per byte, high digit first; anything else is not hex.
pub open spec fn hex_decoding(s: Seq<char>) -> Option<Seq<u8>> {
    if s.len() % 2 == 0 && forall|i: int| 0 <= i < s.len() ==> hex_digit_value(#[trigger] s[i]) >= 0 {
        Some(Seq::new(s.len() / 2, |i: int| (16 * hex_digit_value(s[2 * i]) + hex_digit_value(s[2 * i + 1])) as u8))
    } else {
        None
    }
}

/// The bytes of an optional byte vector.
pub open spec fn opt_bytes(r: Option<Vec<u8>>) -> Option<Seq<u8>> {
    match r {
        Some(v) => Some(v@),
        None => None,
    }
}

/// `hex::decode`: the bytes of a hexadecimal text (see [`hex_decoding`]),
/// `None` where the crate reports an odd length or a non-hex character.
#[verifier::external_body]
fn decode_hex(s: &str) -> (r: Option<Vec<u8>>)
    ensures
        opt_bytes(r) == hex_decoding(s@),
{
    hex::decode(s).ok()
}

/// What base64 decoding with the standard alphabet and padding gives.
pub uninterp spec fn base64_standard_decoding(s: Seq<char>) -> Option<Seq<u8>>;

/// What base64 decoding with the URL-safe alphabet and padding gives.
pub uninterp spec fn base64_url_safe_decoding(s: Seq<char>) -> Option<Seq<u8>>;

/// `base64::engine::general_purpose::STANDARD.decode`, `None` on a decode
/// error; stated through the name `base64_standard_decoding`.
#[verifier::external_body]
fn decode_base64_standard(s: &str) -> (r: Option<Vec<u8>>)
    ensures
        opt_bytes(r) == base64_standard_decoding(s@),
{
    base64::Engine::decode(&base64::engine::general_purpose::STANDARD, s).ok()
}

/// `base64::engine::general_purpose::URL_SAFE.decode`, `None` on a decode
/// error; stated through the name `base64_url_safe_decoding`.
#[verifier::external_body]
fn decode_base64_url_safe(s: &str) -> (r: Option<Vec<u8>>)
    ensures
        opt_bytes(r) == base64_url_safe_decoding(s@),
{
    base64::Engine::decode(&base64::engine::general_purpose::URL_SAFE, s).ok()
}

/// The decoding of a public key text: hex first, then standard base64, then
/// URL-safe base64.
pub open spec fn pubkey_decoding(s: Seq<char>) -> Option<Seq<u8>> {
    if hex_decoding(s) is Some {
        hex_decoding(s)
    } else if base64_standard_decoding(s) is Some {
        base64_standard_decoding(s)
    } else {
        base64_url_safe_decoding(s)
    }
}

/// The opening of the error for an unreadable public key.
pub open spec fn pubkey_error_prefix() -> Seq<char> {
    "Invalid pubkey format: expected hex or base64, got '"@
}

/// Decodes a public key given in hex or base64. An unreadable key is
/// refused with a message that quotes it, cut after 16 bytes.
pub fn parse_pubkey(input: &str) -> (r: Result<Vec<u8>, String>)
    requires
        input.len() > 16 ==> input.is_char_boundary(16),
    ensures
        match r {
            Ok(bytes) => pubkey_decoding(input@) == Some(bytes@),
            Err(m) => pubkey_decoding(input@) is None
                && (input.len() <= 16 ==> m@ == pubkey_error_prefix() + input@ + "'"@)
                && (input.len() > 16 ==> exists|head: &str|
                    #[trigger] head.spec_bytes() == input.spec_bytes().subrange(0, 16)
                    && m@ == pubkey_error_prefix() + head@ + "...'"@),
        },
{
    let hex = decode_hex(input);
    if let Some(bytes) = hex {
        return Ok(bytes);
    }
    let standard = decode_base64_standard(input);
    if let Some(bytes) = standard {
        return Ok(bytes);
    }
    let url_safe = decode_base64_url_safe(input);
    if let Some(bytes) = url_safe {
        return Ok(bytes);
    }
    assert(pubkey_decoding(input@) is None);
    if input.len() > 16 {
        let (head, _) = input.split_at(16);
        let m = concat3("Invalid pubkey format: expected hex or base64, got '", head, "...'");
        assert(head.spec_bytes() == input.spec_bytes().subrange(0, 16));
        assert(m@ == pubkey_error_prefix() + head@ + "...'"@);
        Err(m)
    } else {
        let m = concat3("Invalid pubkey format: expected hex or base64, got '", input, "'");
        Err(m)
    }
}

// ---------------------------------------------------------------------------
// Data exchanged with the client
// ---------------------------------------------------------------------------

/// Settings of the MCP client.
pub struct McpClientConfig {
    /// Where user data is stored.
    pub storage_dir: std::path::PathBuf,
    /// Display name of the demo user.
    pub display_name: String,
    /// Device name.
    pub device_name: String,
    /// A four-word identity to use, generated when absent.
    pub four_words: Option<String>,
}

/// Result of invoking a tool.
pub struct ToolResult {
    /// Whether the tool succeeded.
    pub success: bool,
    /// What it returned, on success.
    pub data: Option<serde_json::Value>,
    /// What went wrong, on failure.
    pub error: Option<String>,
    /// Time taken, in milliseconds.
    pub duration_ms: u64,
}

/// A peer's announced presence.
pub struct PresenceInfo {
    /// Public key, in hex.
    pub pubkey: String,
    /// Four words encoding the peer's address.
    pub connection_words: String,
    /// When the presence was announced, in Unix seconds.
    pub timestamp: u64,
}

/// A contact, for display.
pub struct ContactInfo {
    /// Contact identifier.
    pub id: String,
    /// Display name.
    pub display_name: String,
    /// Four-word identity, when linked to the network.
    pub four_words: Option<String>,
    /// Whether the contact is a favourite.
    pub is_favourite: bool,
    /// Whether the contact is online.
    pub is_online: bool,
    /// Last seen, in Unix seconds.
    pub last_seen: Option<i64>,
}

/// A message, for display.
pub struct MessageInfo {
    /// Message identifier.
    pub id: String,
    /// Text.
    pub text: String,
    /// Four-word identity of the author.
    pub author: String,
    /// When it was written, as text.
    pub timestamp: String,
    /// Whether it was edited.
    pub edited: bool,
}

} // verus!
