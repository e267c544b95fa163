//! How tool names are categorised: the words, prefixes and names of each
//! category, and the catalogue's tools against them. Each tool falls, by its
//! name, in the category that lists it, but for a few whose names carry
//! another category's words or none.

use vstd::prelude::*;
use crate::mcp::client::{McpToolCategory, category_of, tool_table, all_categories};
use crate::text::{has_prefix, has_substring, occurs_at, lemma_missing_char, lemma_missing_pair, lemma_prefix_mismatch};

verus! {

/// The words whose occurrence in a tool name puts it in category `c`.
pub open spec fn category_words(c: McpToolCategory) -> Seq<Seq<char>> {
    match c {
        McpToolCategory::Auth => seq![],
        McpToolCategory::Entities => seq!["entity"@, "member"@],
        McpToolCategory::Messages => seq!["message"@, "thread"@, "reaction"@],
        McpToolCategory::Files => seq!["file"@, "upload"@],
        McpToolCategory::Kanban => seq!["kanban"@, "card"@, "column"@, "board"@, "step"@, "tag"@],
        McpToolCategory::Network => seq!["metrics"@, "trust"@, "placement"@, "presence"@],
        McpToolCategory::Social => seq!["poll"@, "story"@, "call"@, "location"@, "screen"@, "presentation"@, "website"@, "workspace"@],
    }
}

/// The beginnings of tool names that put them in category `c`.
pub open spec fn category_prefixes(c: McpToolCategory) -> Seq<Seq<char>> {
    match c {
        McpToolCategory::Auth => seq!["authenticate"@, "create_vault"@, "list_vault"@, "delete_vault"@, "import_vault"@, "export_vault"@],
        McpToolCategory::Network => seq!["network_"@, "dht_"@],
        _ => seq![],
    }
}

/// The whole tool names that category `c` names one by one.
pub open spec fn category_names(c: McpToolCategory) -> Seq<Seq<char>> {
    match c {
        McpToolCategory::Auth => seq!["health_check"@, "core_status"@, "get_session"@, "logout"@],
        McpToolCategory::Entities => seq!["join_entity"@],
        McpToolCategory::Messages => seq!["get_unread_count"@],
        McpToolCategory::Files => seq!["get_disk_stats"@],
        _ => seq![],
    }
}

/// `name` holds a word of category `c`, begins with one of its prefixes, or
/// is one of the names it lists.
pub open spec fn carries(name: Seq<char>, c: McpToolCategory) -> bool {
    ||| exists|i: int| 0 <= i < category_words(c).len() && has_substring(name, #[trigger] category_words(c)[i])
    ||| exists|i: int| 0 <= i < category_prefixes(c).len() && has_prefix(name, #[trigger] category_prefixes(c)[i])
    ||| category_names(c).contains(name)
}

/// What `carries` amounts to for each category, written out.
proof fn lemma_carries_unfolded(name: Seq<char>)
    ensures
        carries(name, McpToolCategory::Auth) <==> (has_prefix(name, "authenticate"@) || has_prefix(name, "create_vault"@)
            || has_prefix(name, "list_vault"@) || has_prefix(name, "delete_vault"@) || has_prefix(name, "import_vault"@)
            || has_prefix(name, "export_vault"@) || name == "health_check"@ || name == "core_status"@
            || name == "get_session"@ || name == "logout"@),
        carries(name, McpToolCategory::Entities) <==> (has_substring(name, "entity"@) || has_substring(name, "member"@)
            || name == "join_entity"@),
        carries(name, McpToolCategory::Messages) <==> (has_substring(name, "message"@) || has_substring(name, "thread"@)
            || has_substring(name, "reaction"@) || name == "get_unread_count"@),
        carries(name, McpToolCategory::Files) <==> (has_substring(name, "file"@) || name == "get_disk_stats"@
            || has_substring(name, "upload"@)),
        carries(name, McpToolCategory::Kanban) <==> (has_substring(name, "kanban"@) || has_substring(name, "card"@)
            || has_substring(name, "column"@) || has_substring(name, "board"@) || has_substring(name, "step"@)
            || has_substring(name, "tag"@)),
        carries(name, McpToolCategory::Network) <==> (has_prefix(name, "network_"@) || has_prefix(name, "dht_"@)
            || has_substring(name, "metrics"@) || has_substring(name, "trust"@) || has_substring(name, "placement"@)
            || has_substring(name, "presence"@)),
        carries(name, McpToolCategory::Social) <==> (has_substring(name, "poll"@) || has_substring(name, "story"@)
            || has_substring(name, "call"@) || has_substring(name, "location"@) || has_substring(name, "screen"@)
            || has_substring(name, "presentation"@) || has_substring(name, "website"@) || has_substring(name, "workspace"@)),
{
    assert(category_words(McpToolCategory::Entities)[0] == "entity"@);
    assert(category_words(McpToolCategory::Entities)[1] == "member"@);
    assert(category_words(McpToolCategory::Messages)[0] == "message"@);
    assert(category_words(McpToolCategory::Messages)[1] == "thread"@);
    assert(category_words(McpToolCategory::Messages)[2] == "reaction"@);
    assert(category_words(McpToolCategory::Files)[0] == "file"@);
    assert(category_words(McpToolCategory::Files)[1] == "upload"@);
    assert(category_words(McpToolCategory::Kanban)[0] == "kanban"@);
    assert(category_words(McpToolCategory::Kanban)[1] == "card"@);
    assert(category_words(McpToolCategory::Kanban)[2] == "column"@);
    assert(category_words(McpToolCategory::Kanban)[3] == "board"@);
    assert(category_words(McpToolCategory::Kanban)[4] == "step"@);
    assert(category_words(McpToolCategory::Kanban)[5] == "tag"@);
    assert(category_words(McpToolCategory::Network)[0] == "metrics"@);
    assert(category_words(McpToolCategory::Network)[1] == "trust"@);
    assert(category_words(McpToolCategory::Network)[2] == "placement"@);
    assert(category_words(McpToolCategory::Network)[3] == "presence"@);
    assert(category_words(McpToolCategory::Social)[0] == "poll"@);
    assert(category_words(McpToolCategory::Social)[1] == "story"@);
    assert(category_words(McpToolCategory::Social)[2] == "call"@);
    assert(category_words(McpToolCategory::Social)[3] == "location"@);
    assert(category_words(McpToolCategory::Social)[4] == "screen"@);
    assert(category_words(McpToolCategory::Social)[5] == "presentation"@);
    assert(category_words(McpToolCategory::Social)[6] == "website"@);
    assert(category_words(McpToolCategory::Social)[7] == "workspace"@);
    assert(category_prefixes(McpToolCategory::Auth)[0] == "authenticate"@);
    assert(category_prefixes(McpToolCategory::Auth)[1] == "create_vault"@);
    assert(category_prefixes(McpToolCategory::Auth)[2] == "list_vault"@);
    assert(category_prefixes(McpToolCategory::Auth)[3] == "delete_vault"@);
    assert(category_prefixes(McpToolCategory::Auth)[4] == "import_vault"@);
    assert(category_prefixes(McpToolCategory::Auth)[5] == "export_vault"@);
    assert(category_prefixes(McpToolCategory::Network)[0] == "network_"@);
    assert(category_prefixes(McpToolCategory::Network)[1] == "dht_"@);
    assert(category_names(McpToolCategory::Auth)[0] == "health_check"@);
    assert(category_names(McpToolCategory::Auth)[1] == "core_status"@);
    assert(category_names(McpToolCategory::Auth)[2] == "get_session"@);
    assert(category_names(McpToolCategory::Auth)[3] == "logout"@);
    assert(category_names(McpToolCategory::Entities)[0] == "join_entity"@);
    assert(category_names(McpToolCategory::Messages)[0] == "get_unread_count"@);
    assert(category_names(McpToolCategory::Files)[0] == "get_disk_stats"@);
}

/// A tool name falls in the first category, in display order, whose words,
/// prefixes or names it carries; a name that carries none counts as a
/// network tool.
pub proof fn lemma_category_is_first_carried(name: Seq<char>, k: int)
    requires
        0 <= k < 7,
    ensures
        carries(name, all_categories()[k]) && (forall|j: int| 0 <= j < k ==> !carries(name, #[trigger] all_categories()[j]))
            ==> category_of(name) == all_categories()[k],
        (forall|j: int| 0 <= j < 7 ==> !carries(name, #[trigger] all_categories()[j])) ==> category_of(name) == McpToolCategory::Network,
{
    lemma_carries_unfolded(name);
    assert(all_categories()[0] == McpToolCategory::Auth);
    assert(all_categories()[1] == McpToolCategory::Entities);
    assert(all_categories()[2] == McpToolCategory::Messages);
    assert(all_categories()[3] == McpToolCategory::Files);
    assert(all_categories()[4] == McpToolCategory::Kanban);
    assert(all_categories()[5] == McpToolCategory::Network);
    assert(all_categories()[6] == McpToolCategory::Social);
}

/// Where the naming rules of [`category_of`] put the tool at position `k`
/// of category `c` of the catalogue, when that is not `c` itself.
///
/// The tools concerned:
/// - `list_entities`, `create_invite`, `accept_invite`, `list_pending_invites`, `create_delegate_token`, listed under Entities, fall in Network;
/// - `get_profile`, `update_profile`, listed under Entities, fall in Files;
/// - `export_vault`, listed under Entities, falls in Auth;
/// - `create_contact`, `list_contacts`, listed under Messages, fall in Network;
/// - `assign_user`, `unassign_user`, listed under Kanban, fall in Network;
/// - `get_media_metadata`, listed under Social, falls in Network.
pub open spec fn listed_elsewhere(c: McpToolCategory, k: int) -> Option<McpToolCategory> {
    match c {
        McpToolCategory::Entities => {
            if k == 4 || k == 9 || k == 10 || k == 11 || k == 14 {
                Some(McpToolCategory::Network)
            } else if k == 12 || k == 13 {
                Some(McpToolCategory::Files)
            } else if k == 15 {
                Some(McpToolCategory::Auth)
            } else {
                None
            }
        },
        McpToolCategory::Messages => {
            if k == 12 || k == 13 {
                Some(McpToolCategory::Network)
            } else {
                None
            }
        },
        McpToolCategory::Kanban => {
            if k == 18 || k == 19 {
                Some(McpToolCategory::Network)
            } else {
                None
            }
        },
        McpToolCategory::Social => {
            if k == 3 {
                Some(McpToolCategory::Network)
            } else {
                None
            }
        },
        _ => None,
    }
}

/// The name `authenticate` falls in Auth.
proof fn lemma_tool_authenticate()
    ensures
        category_of("authenticate"@) == McpToolCategory::Auth,
{
    reveal_strlit("authenticate");
    assert("authenticate"@.subrange(0, 12) =~= "authenticate"@);
}

/// The name `create_vault` falls in Auth.
proof fn lemma_tool_create_vault()
    ensures
        category_of("create_vault"@) == McpToolCategory::Auth,
{
    reveal_strlit("create_vault");
    assert("create_vault"@.subrange(0, 12) =~= "create_vault"@);
}

/// The name `authenticate_token` falls in Auth.
proof fn lemma_tool_authenticate_token()
    ensures
        category_of("authenticate_token"@) == McpToolCategory::Auth,
{
    reveal_strlit("authenticate_token");
    reveal_strlit("authenticate");
    assert("authenticate_token"@.subrange(0, 12) =~= "authenticate"@);
}

/// The name `health_check` falls in Auth.
proof fn lemma_tool_health_check()
    ensures
        category_of("health_check"@) == McpToolCategory::Auth,
{
    reveal_strlit("health_check");
}

/// The name `core_status` falls in Auth.
proof fn lemma_tool_core_status()
    ensures
        category_of("core_status"@) == McpToolCategory::Auth,
{
    reveal_strlit("core_status");
}

/// The name `list_vaults` falls in Auth.
proof fn lemma_tool_list_vaults()
    ensures
        category_of("list_vaults"@) == McpToolCategory::Auth,
{
    reveal_strlit("list_vaults");
    reveal_strlit("list_vault");
    assert("list_vaults"@.subrange(0, 10) =~= "list_vault"@);
}

/// The name `delete_vault` falls in Auth.
proof fn lemma_tool_delete_vault()
    ensures
        category_of("delete_vault"@) == McpToolCategory::Auth,
{
    reveal_strlit("delete_vault");
    assert("delete_vault"@.subrange(0, 12) =~= "delete_vault"@);
}

/// The name `import_vault` falls in Auth.
proof fn lemma_tool_import_vault()
    ensures
        category_of("import_vault"@) == McpToolCategory::Auth,
{
    reveal_strlit("import_vault");
    assert("import_vault"@.subrange(0, 12) =~= "import_vault"@);
}

/// The name `create_entity` falls in Entities.
proof fn lemma_tool_create_entity()
    ensures
        category_of("create_entity"@) == McpToolCategory::Entities,
{
    reveal_strlit("create_entity");
    reveal_strlit("authenticate");
    reveal_strlit("create_vault");
    reveal_strlit("list_vault");
    reveal_strlit("delete_vault");
    reveal_strlit("import_vault");
    reveal_strlit("export_vault");
    reveal_strlit("health_check");
    reveal_strlit("core_status");
    reveal_strlit("get_session");
    reveal_strlit("logout");
    reveal_strlit("entity");
    lemma_prefix_mismatch("create_entity"@, "authenticate"@, 0);
    lemma_prefix_mismatch("create_entity"@, "create_vault"@, 7);
    lemma_prefix_mismatch("create_entity"@, "list_vault"@, 0);
    lemma_prefix_mismatch("create_entity"@, "delete_vault"@, 0);
    lemma_prefix_mismatch("create_entity"@, "import_vault"@, 0);
    lemma_prefix_mismatch("create_entity"@, "export_vault"@, 0);
    assert("create_entity"@.len() != "health_check"@.len());
    assert("create_entity"@.len() != "core_status"@.len());
    assert("create_entity"@.len() != "get_session"@.len());
    assert("create_entity"@.len() != "logout"@.len());
    assert("create_entity"@.subrange(7, 13) =~= "entity"@);
    assert(occurs_at("create_entity"@, "entity"@, 7));
}

/// The name `update_entity` falls in Entities.
proof fn lemma_tool_update_entity()
    ensures
        category_of("update_entity"@) == McpToolCategory::Entities,
{
    reveal_strlit("update_entity");
    reveal_strlit("authenticate");
    reveal_strlit("create_vault");
    reveal_strlit("list_vault");
    reveal_strlit("delete_vault");
    reveal_strlit("import_vault");
    reveal_strlit("export_vault");
    reveal_strlit("health_check");
    reveal_strlit("core_status");
    reveal_strlit("get_session");
    reveal_strlit("logout");
    reveal_strlit("entity");
    lemma_prefix_mismatch("update_entity"@, "authenticate"@, 0);
    lemma_prefix_mismatch("update_entity"@, "create_vault"@, 0);
    lemma_prefix_mismatch("update_entity"@, "list_vault"@, 0);
    lemma_prefix_mismatch("update_entity"@, "delete_vault"@, 0);
    lemma_prefix_mismatch("update_entity"@, "import_vault"@, 0);
    lemma_prefix_mismatch("update_entity"@, "export_vault"@, 0);
    assert("update_entity"@.len() != "health_check"@.len());
    assert("update_entity"@.len() != "core_status"@.len());
    assert("update_entity"@.len() != "get_session"@.len());
    assert("update_entity"@.len() != "logout"@.len());
    assert("update_entity"@.subrange(7, 13) =~= "entity"@);
    assert(occurs_at("update_entity"@, "entity"@, 7));
}

/// The name `delete_entity` falls in Entities.
proof fn lemma_tool_delete_entity()
    ensures
        category_of("delete_entity"@) == McpToolCategory::Entities,
{
    reveal_strlit("delete_entity");
    reveal_strlit("authenticate");
    reveal_strlit("create_vault");
    reveal_strlit("list_vault");
    reveal_strlit("delete_vault");
    reveal_strlit("import_vault");
    reveal_strlit("export_vault");
    reveal_strlit("health_check");
    reveal_strlit("core_status");
    reveal_strlit("get_session");
    reveal_strlit("logout");
    reveal_strlit("entity");
    lemma_prefix_mismatch("delete_entity"@, "authenticate"@, 0);
    lemma_prefix_mismatch("delete_entity"@, "create_vault"@, 0);
    lemma_prefix_mismatch("delete_entity"@, "list_vault"@, 0);
    lemma_prefix_mismatch("delete_entity"@, "delete_vault"@, 7);
    lemma_prefix_mismatch("delete_entity"@, "import_vault"@, 0);
    lemma_prefix_mismatch("delete_entity"@, "export_vault"@, 0);
    assert("delete_entity"@.len() != "health_check"@.len());
    assert("delete_entity"@.len() != "core_status"@.len());
    assert("delete_entity"@.len() != "get_session"@.len());
    assert("delete_entity"@.len() != "logout"@.len());
    assert("delete_entity"@.subrange(7, 13) =~= "entity"@);
    assert(occurs_at("delete_entity"@, "entity"@, 7));
}

/// The name `get_entity` falls in Entities.
proof fn lemma_tool_get_entity()
    ensures
        category_of("get_entity"@) == McpToolCategory::Entities,
{
    reveal_strlit("get_entity");
    reveal_strlit("authenticate");
    reveal_strlit("create_vault");
    reveal_strlit("list_vault");
    reveal_strlit("delete_vault");
    reveal_strlit("import_vault");
    reveal_strlit("export_vault");
    reveal_strlit("health_check");
    reveal_strlit("core_status");
    reveal_strlit("get_session");
    reveal_strlit("logout");
    reveal_strlit("entity");
    lemma_prefix_mismatch("get_entity"@, "list_vault"@, 0);
    assert("get_entity"@.len() != "health_check"@.len());
    assert("get_entity"@.len() != "core_status"@.len());
    assert("get_entity"@.len() != "get_session"@.len());
    assert("get_entity"@.len() != "logout"@.len());
    assert("get_entity"@.subrange(4, 10) =~= "entity"@);
    assert(occurs_at("get_entity"@, "entity"@, 4));
}

/// The name `list_entities` falls in Network.
proof fn lemma_tool_list_entities()
    ensures
        category_of("list_entities"@) == McpToolCategory::Network,
{
    reveal_strlit("list_entities");
    reveal_strlit("authenticate");
    reveal_strlit("create_vault");
    reveal_strlit("list_vault");
    reveal_strlit("delete_vault");
    reveal_strlit("import_vault");
    reveal_strlit("export_vault");
    reveal_strlit("health_check");
    reveal_strlit("core_status");
    reveal_strlit("get_session");
    reveal_strlit("logout");
    reveal_strlit("entity");
    reveal_strlit("member");
    reveal_strlit("join_entity");
    reveal_strlit("message");
    reveal_strlit("thread");
    reveal_strlit("reaction");
    reveal_strlit("get_unread_count");
    reveal_strlit("file");
    reveal_strlit("get_disk_stats");
    reveal_strlit("upload");
    reveal_strlit("kanban");
    reveal_strlit("card");
    reveal_strlit("column");
    reveal_strlit("board");
    reveal_strlit("step");
    reveal_strlit("tag");
    reveal_strlit("network_");
    reveal_strlit("dht_");
    reveal_strlit("metrics");
    reveal_strlit("trust");
    reveal_strlit("placement");
    reveal_strlit("presence");
    reveal_strlit("poll");
    reveal_strlit("story");
    reveal_strlit("call");
    reveal_strlit("location");
    reveal_strlit("screen");
    reveal_strlit("presentation");
    reveal_strlit("website");
    reveal_strlit("workspace");
    lemma_prefix_mismatch("list_entities"@, "authenticate"@, 0);
    lemma_prefix_mismatch("list_entities"@, "create_vault"@, 0);
    lemma_prefix_mismatch("list_entities"@, "list_vault"@, 5);
    lemma_prefix_mismatch("list_entities"@, "delete_vault"@, 0);
    lemma_prefix_mismatch("list_entities"@, "import_vault"@, 0);
    lemma_prefix_mismatch("list_entities"@, "export_vault"@, 0);
    assert("list_entities"@.len() != "health_check"@.len());
    assert("list_entities"@.len() != "core_status"@.len());
    assert("list_entities"@.len() != "get_session"@.len());
    assert("list_entities"@.len() != "logout"@.len());
    lemma_missing_char("list_entities"@, "entity"@, 5);
    lemma_missing_char("list_entities"@, "member"@, 0);
    assert("list_entities"@.len() != "join_entity"@.len());
    lemma_missing_char("list_entities"@, "message"@, 0);
    lemma_missing_char("list_entities"@, "thread"@, 1);
    lemma_missing_char("list_entities"@, "reaction"@, 0);
    assert("list_entities"@.len() != "get_unread_count"@.len());
    lemma_missing_char("list_entities"@, "file"@, 0);
    assert("list_entities"@.len() != "get_disk_stats"@.len());
    lemma_missing_char("list_entities"@, "upload"@, 0);
    lemma_missing_char("list_entities"@, "kanban"@, 0);
    lemma_missing_char("list_entities"@, "card"@, 0);
    lemma_missing_char("list_entities"@, "column"@, 0);
    lemma_missing_char("list_entities"@, "board"@, 0);
    lemma_missing_char("list_entities"@, "step"@, 3);
    lemma_missing_char("list_entities"@, "tag"@, 1);
    lemma_prefix_mismatch("list_entities"@, "network_"@, 0);
    lemma_prefix_mismatch("list_entities"@, "dht_"@, 0);
    lemma_missing_char("list_entities"@, "metrics"@, 0);
    lemma_missing_char("list_entities"@, "trust"@, 1);
    lemma_missing_char("list_entities"@, "placement"@, 0);
    lemma_missing_char("list_entities"@, "presence"@, 0);
    lemma_missing_char("list_entities"@, "poll"@, 0);
    lemma_missing_char("list_entities"@, "story"@, 2);
    lemma_missing_char("list_entities"@, "call"@, 0);
    lemma_missing_char("list_entities"@, "location"@, 1);
    lemma_missing_char("list_entities"@, "screen"@, 1);
    lemma_missing_char("list_entities"@, "presentation"@, 0);
    lemma_missing_char("list_entities"@, "website"@, 0);
    lemma_missing_char("list_entities"@, "workspace"@, 0);
}

/// The name `add_member` falls in Entities.
proof fn lemma_tool_add_member()
    ensures
        category_of("add_member"@) == McpToolCategory::Entities,
{
    reveal_strlit("add_member");
    reveal_strlit("authenticate");
    reveal_strlit("create_vault");
    reveal_strlit("list_vault");
    reveal_strlit("delete_vault");
    reveal_strlit("import_vault");
    reveal_strlit("export_vault");
    reveal_strlit("health_check");
    reveal_strlit("core_status");
    reveal_strlit("get_session");
    reveal_strlit("logout");
    reveal_strlit("member");
    lemma_prefix_mismatch("add_member"@, "list_vault"@, 0);
    assert("add_member"@.len() != "health_check"@.len());
    assert("add_member"@.len() != "core_status"@.len());
    assert("add_member"@.len() != "get_session"@.len());
    assert("add_member"@.len() != "logout"@.len());
    assert("add_member"@.subrange(4, 10) =~= "member"@);
    assert(occurs_at("add_member"@, "member"@, 4));
}

/// The name `remove_member` falls in Entities.
proof fn lemma_tool_remove_member()
    ensures
        category_of("remove_member"@) == McpToolCategory::Entities,
{
    reveal_strlit("remove_member");
    reveal_strlit("authenticate");
    reveal_strlit("create_vault");
    reveal_strlit("list_vault");
    reveal_strlit("delete_vault");
    reveal_strlit("import_vault");
    reveal_strlit("export_vault");
    reveal_strlit("health_check");
    reveal_strlit("core_status");
    reveal_strlit("get_session");
    reveal_strlit("logout");
    reveal_strlit("member");
    lemma_prefix_mismatch("remove_member"@, "authenticate"@, 0);
    lemma_prefix_mismatch("remove_member"@, "create_vault"@, 0);
    lemma_prefix_mismatch("remove_member"@, "list_vault"@, 0);
    lemma_prefix_mismatch("remove_member"@, "delete_vault"@, 0);
    lemma_prefix_mismatch("remove_member"@, "import_vault"@, 0);
    lemma_prefix_mismatch("remove_member"@, "export_vault"@, 0);
    assert("remove_member"@.len() != "health_check"@.len());
    assert("remove_member"@.len() != "core_status"@.len());
    assert("remove_member"@.len() != "get_session"@.len());
    assert("remove_member"@.len() != "logout"@.len());
    assert("remove_member"@.subrange(7, 13) =~= "member"@);
    assert(occurs_at("remove_member"@, "member"@, 7));
}

/// The name `list_members` falls in Entities.
proof fn lemma_tool_list_members()
    ensures
        category_of("list_members"@) == McpToolCategory::Entities,
{
    reveal_strlit("list_members");
    reveal_strlit("authenticate");
    reveal_strlit("create_vault");
    reveal_strlit("list_vault");
    reveal_strlit("delete_vault");
    reveal_strlit("import_vault");
    reveal_strlit("export_vault");
    reveal_strlit("health_check");
    reveal_strlit("core_status");
    reveal_strlit("get_session");
    reveal_strlit("logout");
    reveal_strlit("member");
    lemma_prefix_mismatch("list_members"@, "authenticate"@, 0);
    lemma_prefix_mismatch("list_members"@, "create_vault"@, 0);
    lemma_prefix_mismatch("list_members"@, "list_vault"@, 5);
    lemma_prefix_mismatch("list_members"@, "delete_vault"@, 0);
    lemma_prefix_mismatch("list_members"@, "import_vault"@, 0);
    lemma_prefix_mismatch("list_members"@, "export_vault"@, 0);
    assert("list_members"@[0] != "health_check"@[0]);
    assert("list_members"@.len() != "core_status"@.len());
    assert("list_members"@.len() != "get_session"@.len());
    assert("list_members"@.len() != "logout"@.len());
    assert("list_members"@.subrange(5, 11) =~= "member"@);
    assert(occurs_at("list_members"@, "member"@, 5));
}

/// The name `join_entity` falls in Entities.
proof fn lemma_tool_join_entity()
    ensures
        category_of("join_entity"@) == McpToolCategory::Entities,
{
    reveal_strlit("join_entity");
    reveal_strlit("authenticate");
    reveal_strlit("create_vault");
    reveal_strlit("list_vault");
    reveal_strlit("delete_vault");
    reveal_strlit("import_vault");
    reveal_strlit("export_vault");
    reveal_strlit("health_check");
    reveal_strlit("core_status");
    reveal_strlit("get_session");
    reveal_strlit("logout");
    reveal_strlit("entity");
    lemma_prefix_mismatch("join_entity"@, "list_vault"@, 0);
    assert("join_entity"@.len() != "health_check"@.len());
    assert("join_entity"@[0] != "core_status"@[0]);
    assert("join_entity"@[0] != "get_session"@[0]);
    assert("join_entity"@.len() != "logout"@.len());
    assert("join_entity"@.subrange(5, 11) =~= "entity"@);
    assert(occurs_at("join_entity"@, "entity"@, 5));
}

/// The name `create_invite` falls in Network.
proof fn lemma_tool_create_invite()
    ensures
        category_of("create_invite"@) == McpToolCategory::Network,
{
    reveal_strlit("create_invite");
    reveal_strlit("authenticate");
    reveal_strlit("create_vault");
    reveal_strlit("list_vault");
    reveal_strlit("delete_vault");
    reveal_strlit("import_vault");
    reveal_strlit("export_vault");
    reveal_strlit("health_check");
    reveal_strlit("core_status");
    reveal_strlit("get_session");
    reveal_strlit("logout");
    reveal_strlit("entity");
    reveal_strlit("member");
    reveal_strlit("join_entity");
    reveal_strlit("message");
    reveal_strlit("thread");
    reveal_strlit("reaction");
    reveal_strlit("get_unread_count");
    reveal_strlit("file");
    reveal_strlit("get_disk_stats");
    reveal_strlit("upload");
    reveal_strlit("kanban");
    reveal_strlit("card");
    reveal_strlit("column");
    reveal_strlit("board");
    reveal_strlit("step");
    reveal_strlit("tag");
    reveal_strlit("network_");
    reveal_strlit("dht_");
    reveal_strlit("metrics");
    reveal_strlit("trust");
    reveal_strlit("placement");
    reveal_strlit("presence");
    reveal_strlit("poll");
    reveal_strlit("story");
    reveal_strlit("call");
    reveal_strlit("location");
    reveal_strlit("screen");
    reveal_strlit("presentation");
    reveal_strlit("website");
    reveal_strlit("workspace");
    lemma_prefix_mismatch("create_invite"@, "authenticate"@, 0);
    lemma_prefix_mismatch("create_invite"@, "create_vault"@, 7);
    lemma_prefix_mismatch("create_invite"@, "list_vault"@, 0);
    lemma_prefix_mismatch("create_invite"@, "delete_vault"@, 0);
    lemma_prefix_mismatch("create_invite"@, "import_vault"@, 0);
    lemma_prefix_mismatch("create_invite"@, "export_vault"@, 0);
    assert("create_invite"@.len() != "health_check"@.len());
    assert("create_invite"@.len() != "core_status"@.len());
    assert("create_invite"@.len() != "get_session"@.len());
    assert("create_invite"@.len() != "logout"@.len());
    lemma_missing_char("create_invite"@, "entity"@, 5);
    lemma_missing_char("create_invite"@, "member"@, 0);
    assert("create_invite"@.len() != "join_entity"@.len());
    lemma_missing_char("create_invite"@, "message"@, 0);
    lemma_missing_char("create_invite"@, "thread"@, 1);
    lemma_missing_char("create_invite"@, "reaction"@, 6);
    assert("create_invite"@.len() != "get_unread_count"@.len());
    lemma_missing_char("create_invite"@, "file"@, 0);
    assert("create_invite"@.len() != "get_disk_stats"@.len());
    lemma_missing_char("create_invite"@, "upload"@, 0);
    lemma_missing_char("create_invite"@, "kanban"@, 0);
    lemma_missing_char("create_invite"@, "card"@, 3);
    lemma_missing_char("create_invite"@, "column"@, 1);
    lemma_missing_char("create_invite"@, "board"@, 0);
    lemma_missing_char("create_invite"@, "step"@, 0);
    lemma_missing_char("create_invite"@, "tag"@, 2);
    lemma_prefix_mismatch("create_invite"@, "network_"@, 0);
    lemma_prefix_mismatch("create_invite"@, "dht_"@, 0);
    lemma_missing_char("create_invite"@, "metrics"@, 0);
    lemma_missing_char("create_invite"@, "trust"@, 2);
    lemma_missing_char("create_invite"@, "placement"@, 0);
    lemma_missing_char("create_invite"@, "presence"@, 0);
    lemma_missing_char("create_invite"@, "poll"@, 0);
    lemma_missing_char("create_invite"@, "story"@, 0);
    lemma_missing_char("create_invite"@, "call"@, 2);
    lemma_missing_char("create_invite"@, "location"@, 0);
    lemma_missing_char("create_invite"@, "screen"@, 0);
    lemma_missing_char("create_invite"@, "presentation"@, 0);
    lemma_missing_char("create_invite"@, "website"@, 0);
    lemma_missing_char("create_invite"@, "workspace"@, 0);
}

/// The name `accept_invite` falls in Network.
proof fn lemma_tool_accept_invite()
    ensures
        category_of("accept_invite"@) == McpToolCategory::Network,
{
    reveal_strlit("accept_invite");
    reveal_strlit("authenticate");
    reveal_strlit("create_vault");
    reveal_strlit("list_vault");
    reveal_strlit("delete_vault");
    reveal_strlit("import_vault");
    reveal_strlit("export_vault");
    reveal_strlit("health_check");
    reveal_strlit("core_status");
    reveal_strlit("get_session");
    reveal_strlit("logout");
    reveal_strlit("entity");
    reveal_strlit("member");
    reveal_strlit("join_entity");
    reveal_strlit("message");
    reveal_strlit("thread");
    reveal_strlit("reaction");
    reveal_strlit("get_unread_count");
    reveal_strlit("file");
    reveal_strlit("get_disk_stats");
    reveal_strlit("upload");
    reveal_strlit("kanban");
    reveal_strlit("card");
    reveal_strlit("column");
    reveal_strlit("board");
    reveal_strlit("step");
    reveal_strlit("tag");
    reveal_strlit("network_");
    reveal_strlit("dht_");
    reveal_strlit("metrics");
    reveal_strlit("trust");
    reveal_strlit("placement");
    reveal_strlit("presence");
    reveal_strlit("poll");
    reveal_strlit("story");
    reveal_strlit("call");
    reveal_strlit("location");
    reveal_strlit("screen");
    reveal_strlit("presentation");
    reveal_strlit("website");
    reveal_strlit("workspace");
    lemma_prefix_mismatch("accept_invite"@, "authenticate"@, 1);
    lemma_prefix_mismatch("accept_invite"@, "create_vault"@, 0);
    lemma_prefix_mismatch("accept_invite"@, "list_vault"@, 0);
    lemma_prefix_mismatch("accept_invite"@, "delete_vault"@, 0);
    lemma_prefix_mismatch("accept_invite"@, "import_vault"@, 0);
    lemma_prefix_mismatch("accept_invite"@, "export_vault"@, 0);
    assert("accept_invite"@.len() != "health_check"@.len());
    assert("accept_invite"@.len() != "core_status"@.len());
    assert("accept_invite"@.len() != "get_session"@.len());
    assert("accept_invite"@.len() != "logout"@.len());
    lemma_missing_char("accept_invite"@, "entity"@, 5);
    lemma_missing_char("accept_invite"@, "member"@, 0);
    assert("accept_invite"@.len() != "join_entity"@.len());
    lemma_missing_char("accept_invite"@, "message"@, 0);
    lemma_missing_char("accept_invite"@, "thread"@, 1);
    lemma_missing_char("accept_invite"@, "reaction"@, 0);
    assert("accept_invite"@.len() != "get_unread_count"@.len());
    lemma_missing_char("accept_invite"@, "file"@, 0);
    assert("accept_invite"@.len() != "get_disk_stats"@.len());
    lemma_missing_char("accept_invite"@, "upload"@, 0);
    lemma_missing_char("accept_invite"@, "kanban"@, 0);
    lemma_missing_char("accept_invite"@, "card"@, 2);
    lemma_missing_char("accept_invite"@, "column"@, 1);
    lemma_missing_char("accept_invite"@, "board"@, 0);
    lemma_missing_char("accept_invite"@, "step"@, 0);
    lemma_missing_char("accept_invite"@, "tag"@, 2);
    lemma_prefix_mismatch("accept_invite"@, "network_"@, 0);
    lemma_prefix_mismatch("accept_invite"@, "dht_"@, 0);
    lemma_missing_char("accept_invite"@, "metrics"@, 0);
    lemma_missing_char("accept_invite"@, "trust"@, 1);
    lemma_missing_char("accept_invite"@, "placement"@, 1);
    lemma_missing_char("accept_invite"@, "presence"@, 1);
    lemma_missing_char("accept_invite"@, "poll"@, 1);
    lemma_missing_char("accept_invite"@, "story"@, 0);
    lemma_missing_char("accept_invite"@, "call"@, 2);
    lemma_missing_char("accept_invite"@, "location"@, 0);
    lemma_missing_char("accept_invite"@, "screen"@, 0);
    lemma_missing_char("accept_invite"@, "presentation"@, 1);
    lemma_missing_char("accept_invite"@, "website"@, 0);
    lemma_missing_char("accept_invite"@, "workspace"@, 0);
}

/// The name `list_pending_invites` falls in Network.
proof fn lemma_tool_list_pending_invites()
    ensures
        category_of("list_pending_invites"@) == McpToolCategory::Network,
{
    reveal_strlit("list_pending_invites");
    reveal_strlit("authenticate");
    reveal_strlit("create_vault");
    reveal_strlit("list_vault");
    reveal_strlit("delete_vault");
    reveal_strlit("import_vault");
    reveal_strlit("export_vault");
    reveal_strlit("health_check");
    reveal_strlit("core_status");
    reveal_strlit("get_session");
    reveal_strlit("logout");
    reveal_strlit("entity");
    reveal_strlit("member");
    reveal_strlit("join_entity");
    reveal_strlit("message");
    reveal_strlit("thread");
    reveal_strlit("reaction");
    reveal_strlit("get_unread_count");
    reveal_strlit("file");
    reveal_strlit("get_disk_stats");
    reveal_strlit("upload");
    reveal_strlit("kanban");
    reveal_strlit("card");
    reveal_strlit("column");
    reveal_strlit("board");
    reveal_strlit("step");
    reveal_strlit("tag");
    reveal_strlit("network_");
    reveal_strlit("dht_");
    reveal_strlit("metrics");
    reveal_strlit("trust");
    reveal_strlit("placement");
    reveal_strlit("presence");
    reveal_strlit("poll");
    reveal_strlit("story");
    reveal_strlit("call");
    reveal_strlit("location");
    reveal_strlit("screen");
    reveal_strlit("presentation");
    reveal_strlit("website");
    reveal_strlit("workspace");
    lemma_prefix_mismatch("list_pending_invites"@, "authenticate"@, 0);
    lemma_prefix_mismatch("list_pending_invites"@, "create_vault"@, 0);
    lemma_prefix_mismatch("list_pending_invites"@, "list_vault"@, 5);
    lemma_prefix_mismatch("list_pending_invites"@, "delete_vault"@, 0);
    lemma_prefix_mismatch("list_pending_invites"@, "import_vault"@, 0);
    lemma_prefix_mismatch("list_pending_invites"@, "export_vault"@, 0);
    assert("list_pending_invites"@.len() != "health_check"@.len());
    assert("list_pending_invites"@.len() != "core_status"@.len());
    assert("list_pending_invites"@.len() != "get_session"@.len());
    assert("list_pending_invites"@.len() != "logout"@.len());
    lemma_missing_char("list_pending_invites"@, "entity"@, 5);
    lemma_missing_char("list_pending_invites"@, "member"@, 0);
    assert("list_pending_invites"@.len() != "join_entity"@.len());
    lemma_missing_char("list_pending_invites"@, "message"@, 0);
    lemma_missing_char("list_pending_invites"@, "thread"@, 1);
    lemma_missing_char("list_pending_invites"@, "reaction"@, 0);
    assert("list_pending_invites"@.len() != "get_unread_count"@.len());
    lemma_missing_char("list_pending_invites"@, "file"@, 0);
    assert("list_pending_invites"@.len() != "get_disk_stats"@.len());
    lemma_missing_char("list_pending_invites"@, "upload"@, 0);
    lemma_missing_char("list_pending_invites"@, "kanban"@, 0);
    lemma_missing_char("list_pending_invites"@, "card"@, 0);
    lemma_missing_char("list_pending_invites"@, "column"@, 0);
    lemma_missing_char("list_pending_invites"@, "board"@, 0);
    lemma_missing_pair("list_pending_invites"@, "step"@, 2);
    lemma_missing_char("list_pending_invites"@, "tag"@, 1);
    lemma_prefix_mismatch("list_pending_invites"@, "network_"@, 0);
    lemma_prefix_mismatch("list_pending_invites"@, "dht_"@, 0);
    lemma_missing_char("list_pending_invites"@, "metrics"@, 0);
    lemma_missing_char("list_pending_invites"@, "trust"@, 1);
    lemma_missing_char("list_pending_invites"@, "placement"@, 2);
    lemma_missing_char("list_pending_invites"@, "presence"@, 1);
    lemma_missing_char("list_pending_invites"@, "poll"@, 1);
    lemma_missing_char("list_pending_invites"@, "story"@, 2);
    lemma_missing_char("list_pending_invites"@, "call"@, 0);
    lemma_missing_char("list_pending_invites"@, "location"@, 1);
    lemma_missing_char("list_pending_invites"@, "screen"@, 1);
    lemma_missing_char("list_pending_invites"@, "presentation"@, 1);
    lemma_missing_char("list_pending_invites"@, "website"@, 0);
    lemma_missing_char("list_pending_invites"@, "workspace"@, 0);
}

/// The name `get_profile` falls in Files.
proof fn lemma_tool_get_profile()
    ensures
        category_of("get_profile"@) == McpToolCategory::Files,
{
    reveal_strlit("get_profile");
    reveal_strlit("authenticate");
    reveal_strlit("create_vault");
    reveal_strlit("list_vault");
    reveal_strlit("delete_vault");
    reveal_strlit("import_vault");
    reveal_strlit("export_vault");
    reveal_strlit("health_check");
    reveal_strlit("core_status");
    reveal_strlit("get_session");
    reveal_strlit("logout");
    reveal_strlit("entity");
    reveal_strlit("member");
    reveal_strlit("join_entity");
    reveal_strlit("message");
    reveal_strlit("thread");
    reveal_strlit("reaction");
    reveal_strlit("get_unread_count");
    reveal_strlit("file");
    lemma_prefix_mismatch("get_profile"@, "list_vault"@, 0);
    assert("get_profile"@.len() != "health_check"@.len());
    assert("get_profile"@[0] != "core_status"@[0]);
    assert("get_profile"@[4] != "get_session"@[4]);
    assert("get_profile"@.len() != "logout"@.len());
    lemma_missing_char("get_profile"@, "entity"@, 1);
    lemma_missing_char("get_profile"@, "member"@, 0);
    assert("get_profile"@[0] != "join_entity"@[0]);
    lemma_missing_char("get_profile"@, "message"@, 0);
    lemma_missing_char("get_profile"@, "thread"@, 1);
    lemma_missing_char("get_profile"@, "reaction"@, 2);
    assert("get_profile"@.len() != "get_unread_count"@.len());
    assert("get_profile"@.subrange(7, 11) =~= "file"@);
    assert(occurs_at("get_profile"@, "file"@, 7));
}

/// The name `update_profile` falls in Files.
proof fn lemma_tool_update_profile()
    ensures
        category_of("update_profile"@) == McpToolCategory::Files,
{
    reveal_strlit("update_profile");
    reveal_strlit("authenticate");
    reveal_strlit("create_vault");
    reveal_strlit("list_vault");
    reveal_strlit("delete_vault");
    reveal_strlit("import_vault");
    reveal_strlit("export_vault");
    reveal_strlit("health_check");
    reveal_strlit("core_status");
    reveal_strlit("get_session");
    reveal_strlit("logout");
    reveal_strlit("entity");
    reveal_strlit("member");
    reveal_strlit("join_entity");
    reveal_strlit("message");
    reveal_strlit("thread");
    reveal_strlit("reaction");
    reveal_strlit("get_unread_count");
    reveal_strlit("file");
    lemma_prefix_mismatch("update_profile"@, "authenticate"@, 0);
    lemma_prefix_mismatch("update_profile"@, "create_vault"@, 0);
    lemma_prefix_mismatch("update_profile"@, "list_vault"@, 0);
    lemma_prefix_mismatch("update_profile"@, "delete_vault"@, 0);
    lemma_prefix_mismatch("update_profile"@, "import_vault"@, 0);
    lemma_prefix_mismatch("update_profile"@, "export_vault"@, 0);
    assert("update_profile"@.len() != "health_check"@.len());
    assert("update_profile"@.len() != "core_status"@.len());
    assert("update_profile"@.len() != "get_session"@.len());
    assert("update_profile"@.len() != "logout"@.len());
    lemma_missing_char("update_profile"@, "entity"@, 1);
    lemma_missing_char("update_profile"@, "member"@, 0);
    assert("update_profile"@.len() != "join_entity"@.len());
    lemma_missing_char("update_profile"@, "message"@, 0);
    lemma_missing_char("update_profile"@, "thread"@, 1);
    lemma_missing_char("update_profile"@, "reaction"@, 3);
    assert("update_profile"@.len() != "get_unread_count"@.len());
    assert("update_profile"@.subrange(10, 14) =~= "file"@);
    assert(occurs_at("update_profile"@, "file"@, 10));
}

/// The name `create_delegate_token` falls in Network.
proof fn lemma_tool_create_delegate_token()
    ensures
        category_of("create_delegate_token"@) == McpToolCategory::Network,
{
    reveal_strlit("create_delegate_token");
    reveal_strlit("authenticate");
    reveal_strlit("create_vault");
    reveal_strlit("list_vault");
    reveal_strlit("delete_vault");
    reveal_strlit("import_vault");
    reveal_strlit("export_vault");
    reveal_strlit("health_check");
    reveal_strlit("core_status");
    reveal_strlit("get_session");
    reveal_strlit("logout");
    reveal_strlit("entity");
    reveal_strlit("member");
    reveal_strlit("join_entity");
    reveal_strlit("message");
    reveal_strlit("thread");
    reveal_strlit("reaction");
    reveal_strlit("get_unread_count");
    reveal_strlit("file");
    reveal_strlit("get_disk_stats");
    reveal_strlit("upload");
    reveal_strlit("kanban");
    reveal_strlit("card");
    reveal_strlit("column");
    reveal_strlit("board");
    reveal_strlit("step");
    reveal_strlit("tag");
    reveal_strlit("network_");
    reveal_strlit("dht_");
    reveal_strlit("metrics");
    reveal_strlit("trust");
    reveal_strlit("placement");
    reveal_strlit("presence");
    reveal_strlit("poll");
    reveal_strlit("story");
    reveal_strlit("call");
    reveal_strlit("location");
    reveal_strlit("screen");
    reveal_strlit("presentation");
    reveal_strlit("website");
    reveal_strlit("workspace");
    lemma_prefix_mismatch("create_delegate_token"@, "authenticate"@, 0);
    lemma_prefix_mismatch("create_delegate_token"@, "create_vault"@, 7);
    lemma_prefix_mismatch("create_delegate_token"@, "list_vault"@, 0);
    lemma_prefix_mismatch("create_delegate_token"@, "delete_vault"@, 0);
    lemma_prefix_mismatch("create_delegate_token"@, "import_vault"@, 0);
    lemma_prefix_mismatch("create_delegate_token"@, "export_vault"@, 0);
    assert("create_delegate_token"@.len() != "health_check"@.len());
    assert("create_delegate_token"@.len() != "core_status"@.len());
    assert("create_delegate_token"@.len() != "get_session"@.len());
    assert("create_delegate_token"@.len() != "logout"@.len());
    lemma_missing_char("create_delegate_token"@, "entity"@, 3);
    lemma_missing_char("create_delegate_token"@, "member"@, 0);
    assert("create_delegate_token"@.len() != "join_entity"@.len());
    lemma_missing_char("create_delegate_token"@, "message"@, 0);
    lemma_missing_char("create_delegate_token"@, "thread"@, 1);
    lemma_missing_char("create_delegate_token"@, "reaction"@, 5);
    assert("create_delegate_token"@.len() != "get_unread_count"@.len());
    lemma_missing_char("create_delegate_token"@, "file"@, 0);
    assert("create_delegate_token"@.len() != "get_disk_stats"@.len());
    lemma_missing_char("create_delegate_token"@, "upload"@, 0);
    lemma_missing_char("create_delegate_token"@, "kanban"@, 3);
    lemma_missing_pair("create_delegate_token"@, "card"@, 0);
    lemma_missing_char("create_delegate_token"@, "column"@, 3);
    lemma_missing_char("create_delegate_token"@, "board"@, 0);
    lemma_missing_char("create_delegate_token"@, "step"@, 0);
    lemma_missing_pair("create_delegate_token"@, "tag"@, 0);
    lemma_prefix_mismatch("create_delegate_token"@, "network_"@, 0);
    lemma_prefix_mismatch("create_delegate_token"@, "dht_"@, 0);
    lemma_missing_char("create_delegate_token"@, "metrics"@, 0);
    lemma_missing_char("create_delegate_token"@, "trust"@, 2);
    lemma_missing_char("create_delegate_token"@, "placement"@, 0);
    lemma_missing_char("create_delegate_token"@, "presence"@, 0);
    lemma_missing_char("create_delegate_token"@, "poll"@, 0);
    lemma_missing_char("create_delegate_token"@, "story"@, 0);
    lemma_missing_pair("create_delegate_token"@, "call"@, 0);
    lemma_missing_char("create_delegate_token"@, "location"@, 5);
    lemma_missing_char("create_delegate_token"@, "screen"@, 0);
    lemma_missing_char("create_delegate_token"@, "presentation"@, 0);
    lemma_missing_char("create_delegate_token"@, "website"@, 0);
    lemma_missing_char("create_delegate_token"@, "workspace"@, 0);
}

/// The name `export_vault` falls in Auth.
proof fn lemma_tool_export_vault()
    ensures
        category_of("export_vault"@) == McpToolCategory::Auth,
{
    reveal_strlit("export_vault");
    assert("export_vault"@.subrange(0, 12) =~= "export_vault"@);
}

/// The name `send_message` falls in Messages.
proof fn lemma_tool_send_message()
    ensures
        category_of("send_message"@) == McpToolCategory::Messages,
{
    reveal_strlit("send_message");
    reveal_strlit("authenticate");
    reveal_strlit("create_vault");
    reveal_strlit("list_vault");
    reveal_strlit("delete_vault");
    reveal_strlit("import_vault");
    reveal_strlit("export_vault");
    reveal_strlit("health_check");
    reveal_strlit("core_status");
    reveal_strlit("get_session");
    reveal_strlit("logout");
    reveal_strlit("entity");
    reveal_strlit("member");
    reveal_strlit("join_entity");
    reveal_strlit("message");
    lemma_prefix_mismatch("send_message"@, "authenticate"@, 0);
    lemma_prefix_mismatch("send_message"@, "create_vault"@, 0);
    lemma_prefix_mismatch("send_message"@, "list_vault"@, 0);
    lemma_prefix_mismatch("send_message"@, "delete_vault"@, 0);
    lemma_prefix_mismatch("send_message"@, "import_vault"@, 0);
    lemma_prefix_mismatch("send_message"@, "export_vault"@, 0);
    assert("send_message"@[0] != "health_check"@[0]);
    assert("send_message"@.len() != "core_status"@.len());
    assert("send_message"@.len() != "get_session"@.len());
    assert("send_message"@.len() != "logout"@.len());
    lemma_missing_char("send_message"@, "entity"@, 2);
    lemma_missing_char("send_message"@, "member"@, 3);
    assert("send_message"@.len() != "join_entity"@.len());
    assert("send_message"@.subrange(5, 12) =~= "message"@);
    assert(occurs_at("send_message"@, "message"@, 5));
}

/// The name `delete_message` falls in Messages.
proof fn lemma_tool_delete_message()
    ensures
        category_of("delete_message"@) == McpToolCategory::Messages,
{
    reveal_strlit("delete_message");
    reveal_strlit("authenticate");
    reveal_strlit("create_vault");
    reveal_strlit("list_vault");
    reveal_strlit("delete_vault");
    reveal_strlit("import_vault");
    reveal_strlit("export_vault");
    reveal_strlit("health_check");
    reveal_strlit("core_status");
    reveal_strlit("get_session");
    reveal_strlit("logout");
    reveal_strlit("entity");
    reveal_strlit("member");
    reveal_strlit("join_entity");
    reveal_strlit("message");
    lemma_prefix_mismatch("delete_message"@, "authenticate"@, 0);
    lemma_prefix_mismatch("delete_message"@, "create_vault"@, 0);
    lemma_prefix_mismatch("delete_message"@, "list_vault"@, 0);
    lemma_prefix_mismatch("delete_message"@, "delete_vault"@, 7);
    lemma_prefix_mismatch("delete_message"@, "import_vault"@, 0);
    lemma_prefix_mismatch("delete_message"@, "export_vault"@, 0);
    assert("delete_message"@.len() != "health_check"@.len());
    assert("delete_message"@.len() != "core_status"@.len());
    assert("delete_message"@.len() != "get_session"@.len());
    assert("delete_message"@.len() != "logout"@.len());
    lemma_missing_char("delete_message"@, "entity"@, 1);
    lemma_missing_char("delete_message"@, "member"@, 3);
    assert("delete_message"@.len() != "join_entity"@.len());
    assert("delete_message"@.subrange(7, 14) =~= "message"@);
    assert(occurs_at("delete_message"@, "message"@, 7));
}

/// The name `edit_message` falls in Messages.
proof fn lemma_tool_edit_message()
    ensures
        category_of("edit_message"@) == McpToolCategory::Messages,
{
    reveal_strlit("edit_message");
    reveal_strlit("authenticate");
    reveal_strlit("create_vault");
    reveal_strlit("list_vault");
    reveal_strlit("delete_vault");
    reveal_strlit("import_vault");
    reveal_strlit("export_vault");
    reveal_strlit("health_check");
    reveal_strlit("core_status");
    reveal_strlit("get_session");
    reveal_strlit("logout");
    reveal_strlit("entity");
    reveal_strlit("member");
    reveal_strlit("join_entity");
    reveal_strlit("message");
    lemma_prefix_mismatch("edit_message"@, "authenticate"@, 0);
    lemma_prefix_mismatch("edit_message"@, "create_vault"@, 0);
    lemma_prefix_mismatch("edit_message"@, "list_vault"@, 0);
    lemma_prefix_mismatch("edit_message"@, "delete_vault"@, 0);
    lemma_prefix_mismatch("edit_message"@, "import_vault"@, 0);
    lemma_prefix_mismatch("edit_message"@, "export_vault"@, 1);
    assert("edit_message"@[0] != "health_check"@[0]);
    assert("edit_message"@.len() != "core_status"@.len());
    assert("edit_message"@.len() != "get_session"@.len());
    assert("edit_message"@.len() != "logout"@.len());
    lemma_missing_char("edit_message"@, "entity"@, 1);
    lemma_missing_char("edit_message"@, "member"@, 3);
    assert("edit_message"@.len() != "join_entity"@.len());
    assert("edit_message"@.subrange(5, 12) =~= "message"@);
    assert(occurs_at("edit_message"@, "message"@, 5));
}

/// The name `get_messages` falls in Messages.
proof fn lemma_tool_get_messages()
    ensures
        category_of("get_messages"@) == McpToolCategory::Messages,
{
    reveal_strlit("get_messages");
    reveal_strlit("authenticate");
    reveal_strlit("create_vault");
    reveal_strlit("list_vault");
    reveal_strlit("delete_vault");
    reveal_strlit("import_vault");
    reveal_strlit("export_vault");
    reveal_strlit("health_check");
    reveal_strlit("core_status");
    reveal_strlit("get_session");
    reveal_strlit("logout");
    reveal_strlit("entity");
    reveal_strlit("member");
    reveal_strlit("join_entity");
    reveal_strlit("message");
    lemma_prefix_mismatch("get_messages"@, "authenticate"@, 0);
    lemma_prefix_mismatch("get_messages"@, "create_vault"@, 0);
    lemma_prefix_mismatch("get_messages"@, "list_vault"@, 0);
    lemma_prefix_mismatch("get_messages"@, "delete_vault"@, 0);
    lemma_prefix_mismatch("get_messages"@, "import_vault"@, 0);
    lemma_prefix_mismatch("get_messages"@, "export_vault"@, 0);
    assert("get_messages"@[0] != "health_check"@[0]);
    assert("get_messages"@.len() != "core_status"@.len());
    assert("get_messages"@.len() != "get_session"@.len());
    assert("get_messages"@.len() != "logout"@.len());
    lemma_missing_char("get_messages"@, "entity"@, 1);
    lemma_missing_char("get_messages"@, "member"@, 3);
    assert("get_messages"@.len() != "join_entity"@.len());
    assert("get_messages"@.subrange(4, 11) =~= "message"@);
    assert(occurs_at("get_messages"@, "message"@, 4));
}

/// The name `create_thread` falls in Messages.
proof fn lemma_tool_create_thread()
    ensures
        category_of("create_thread"@) == McpToolCategory::Messages,
{
    reveal_strlit("create_thread");
    reveal_strlit("authenticate");
    reveal_strlit("create_vault");
    reveal_strlit("list_vault");
    reveal_strlit("delete_vault");
    reveal_strlit("import_vault");
    reveal_strlit("export_vault");
    reveal_strlit("health_check");
    reveal_strlit("core_status");
    reveal_strlit("get_session");
    reveal_strlit("logout");
    reveal_strlit("entity");
    reveal_strlit("member");
    reveal_strlit("join_entity");
    reveal_strlit("thread");
    lemma_prefix_mismatch("create_thread"@, "authenticate"@, 0);
    lemma_prefix_mismatch("create_thread"@, "create_vault"@, 7);
    lemma_prefix_mismatch("create_thread"@, "list_vault"@, 0);
    lemma_prefix_mismatch("create_thread"@, "delete_vault"@, 0);
    lemma_prefix_mismatch("create_thread"@, "import_vault"@, 0);
    lemma_prefix_mismatch("create_thread"@, "export_vault"@, 0);
    assert("create_thread"@.len() != "health_check"@.len());
    assert("create_thread"@.len() != "core_status"@.len());
    assert("create_thread"@.len() != "get_session"@.len());
    assert("create_thread"@.len() != "logout"@.len());
    lemma_missing_char("create_thread"@, "entity"@, 1);
    lemma_missing_char("create_thread"@, "member"@, 0);
    assert("create_thread"@.len() != "join_entity"@.len());
    assert("create_thread"@.subrange(7, 13) =~= "thread"@);
    assert(occurs_at("create_thread"@, "thread"@, 7));
}

/// The name `get_thread_messages` falls in Messages.
proof fn lemma_tool_get_thread_messages()
    ensures
        category_of("get_thread_messages"@) == McpToolCategory::Messages,
{
    reveal_strlit("get_thread_messages");
    reveal_strlit("authenticate");
    reveal_strlit("create_vault");
    reveal_strlit("list_vault");
    reveal_strlit("delete_vault");
    reveal_strlit("import_vault");
    reveal_strlit("export_vault");
    reveal_strlit("health_check");
    reveal_strlit("core_status");
    reveal_strlit("get_session");
    reveal_strlit("logout");
    reveal_strlit("entity");
    reveal_strlit("member");
    reveal_strlit("join_entity");
    reveal_strlit("message");
    lemma_prefix_mismatch("get_thread_messages"@, "authenticate"@, 0);
    lemma_prefix_mismatch("get_thread_messages"@, "create_vault"@, 0);
    lemma_prefix_mismatch("get_thread_messages"@, "list_vault"@, 0);
    lemma_prefix_mismatch("get_thread_messages"@, "delete_vault"@, 0);
    lemma_prefix_mismatch("get_thread_messages"@, "import_vault"@, 0);
    lemma_prefix_mismatch("get_thread_messages"@, "export_vault"@, 0);
    assert("get_thread_messages"@.len() != "health_check"@.len());
    assert("get_thread_messages"@.len() != "core_status"@.len());
    assert("get_thread_messages"@.len() != "get_session"@.len());
    assert("get_thread_messages"@.len() != "logout"@.len());
    lemma_missing_char("get_thread_messages"@, "entity"@, 1);
    lemma_missing_char("get_thread_messages"@, "member"@, 3);
    assert("get_thread_messages"@.len() != "join_entity"@.len());
    assert("get_thread_messages"@.subrange(11, 18) =~= "message"@);
    assert(occurs_at("get_thread_messages"@, "message"@, 11));
}

/// The name `add_reaction` falls in Messages.
proof fn lemma_tool_add_reaction()
    ensures
        category_of("add_reaction"@) == McpToolCategory::Messages,
{
    reveal_strlit("add_reaction");
    reveal_strlit("authenticate");
    reveal_strlit("create_vault");
    reveal_strlit("list_vault");
    reveal_strlit("delete_vault");
    reveal_strlit("import_vault");
    reveal_strlit("export_vault");
    reveal_strlit("health_check");
    reveal_strlit("core_status");
    reveal_strlit("get_session");
    reveal_strlit("logout");
    reveal_strlit("entity");
    reveal_strlit("member");
    reveal_strlit("join_entity");
    reveal_strlit("reaction");
    lemma_prefix_mismatch("add_reaction"@, "authenticate"@, 1);
    lemma_prefix_mismatch("add_reaction"@, "create_vault"@, 0);
    lemma_prefix_mismatch("add_reaction"@, "list_vault"@, 0);
    lemma_prefix_mismatch("add_reaction"@, "delete_vault"@, 0);
    lemma_prefix_mismatch("add_reaction"@, "import_vault"@, 0);
    lemma_prefix_mismatch("add_reaction"@, "export_vault"@, 0);
    assert("add_reaction"@[0] != "health_check"@[0]);
    assert("add_reaction"@.len() != "core_status"@.len());
    assert("add_reaction"@.len() != "get_session"@.len());
    assert("add_reaction"@.len() != "logout"@.len());
    lemma_missing_char("add_reaction"@, "entity"@, 5);
    lemma_missing_char("add_reaction"@, "member"@, 0);
    assert("add_reaction"@.len() != "join_entity"@.len());
    assert("add_reaction"@.subrange(4, 12) =~= "reaction"@);
    assert(occurs_at("add_reaction"@, "reaction"@, 4));
}

/// The name `remove_reaction` falls in Messages.
proof fn lemma_tool_remove_reaction()
    ensures
        category_of("remove_reaction"@) == McpToolCategory::Messages,
{
    reveal_strlit("remove_reaction");
    reveal_strlit("authenticate");
    reveal_strlit("create_vault");
    reveal_strlit("list_vault");
    reveal_strlit("delete_vault");
    reveal_strlit("import_vault");
    reveal_strlit("export_vault");
    reveal_strlit("health_check");
    reveal_strlit("core_status");
    reveal_strlit("get_session");
    reveal_strlit("logout");
    reveal_strlit("entity");
    reveal_strlit("member");
    reveal_strlit("join_entity");
    reveal_strlit("reaction");
    lemma_prefix_mismatch("remove_reaction"@, "authenticate"@, 0);
    lemma_prefix_mismatch("remove_reaction"@, "create_vault"@, 0);
    lemma_prefix_mismatch("remove_reaction"@, "list_vault"@, 0);
    lemma_prefix_mismatch("remove_reaction"@, "delete_vault"@, 0);
    lemma_prefix_mismatch("remove_reaction"@, "import_vault"@, 0);
    lemma_prefix_mismatch("remove_reaction"@, "export_vault"@, 0);
    assert("remove_reaction"@.len() != "health_check"@.len());
    assert("remove_reaction"@.len() != "core_status"@.len());
    assert("remove_reaction"@.len() != "get_session"@.len());
    assert("remove_reaction"@.len() != "logout"@.len());
    lemma_missing_char("remove_reaction"@, "entity"@, 5);
    lemma_missing_char("remove_reaction"@, "member"@, 3);
    assert("remove_reaction"@.len() != "join_entity"@.len());
    assert("remove_reaction"@.subrange(7, 15) =~= "reaction"@);
    assert(occurs_at("remove_reaction"@, "reaction"@, 7));
}

/// The name `get_reactions` falls in Messages.
proof fn lemma_tool_get_reactions()
    ensures
        category_of("get_reactions"@) == McpToolCategory::Messages,
{
    reveal_strlit("get_reactions");
    reveal_strlit("authenticate");
    reveal_strlit("create_vault");
    reveal_strlit("list_vault");
    reveal_strlit("delete_vault");
    reveal_strlit("import_vault");
    reveal_strlit("export_vault");
    reveal_strlit("health_check");
    reveal_strlit("core_status");
    reveal_strlit("get_session");
    reveal_strlit("logout");
    reveal_strlit("entity");
    reveal_strlit("member");
    reveal_strlit("join_entity");
    reveal_strlit("reaction");
    lemma_prefix_mismatch("get_reactions"@, "authenticate"@, 0);
    lemma_prefix_mismatch("get_reactions"@, "create_vault"@, 0);
    lemma_prefix_mismatch("get_reactions"@, "list_vault"@, 0);
    lemma_prefix_mismatch("get_reactions"@, "delete_vault"@, 0);
    lemma_prefix_mismatch("get_reactions"@, "import_vault"@, 0);
    lemma_prefix_mismatch("get_reactions"@, "export_vault"@, 0);
    assert("get_reactions"@.len() != "health_check"@.len());
    assert("get_reactions"@.len() != "core_status"@.len());
    assert("get_reactions"@.len() != "get_session"@.len());
    assert("get_reactions"@.len() != "logout"@.len());
    lemma_missing_char("get_reactions"@, "entity"@, 5);
    lemma_missing_char("get_reactions"@, "member"@, 0);
    assert("get_reactions"@.len() != "join_entity"@.len());
    assert("get_reactions"@.subrange(4, 12) =~= "reaction"@);
    assert(occurs_at("get_reactions"@, "reaction"@, 4));
}

/// The name `create_custom_reaction` falls in Messages.
proof fn lemma_tool_create_custom_reaction()
    ensures
        category_of("create_custom_reaction"@) == McpToolCategory::Messages,
{
    reveal_strlit("create_custom_reaction");
    reveal_strlit("authenticate");
    reveal_strlit("create_vault");
    reveal_strlit("list_vault");
    reveal_strlit("delete_vault");
    reveal_strlit("import_vault");
    reveal_strlit("export_vault");
    reveal_strlit("health_check");
    reveal_strlit("core_status");
    reveal_strlit("get_session");
    reveal_strlit("logout");
    reveal_strlit("entity");
    reveal_strlit("member");
    reveal_strlit("join_entity");
    reveal_strlit("reaction");
    lemma_prefix_mismatch("create_custom_reaction"@, "authenticate"@, 0);
    lemma_prefix_mismatch("create_custom_reaction"@, "create_vault"@, 7);
    lemma_prefix_mismatch("create_custom_reaction"@, "list_vault"@, 0);
    lemma_prefix_mismatch("create_custom_reaction"@, "delete_vault"@, 0);
    lemma_prefix_mismatch("create_custom_reaction"@, "import_vault"@, 0);
    lemma_prefix_mismatch("create_custom_reaction"@, "export_vault"@, 0);
    assert("create_custom_reaction"@.len() != "health_check"@.len());
    assert("create_custom_reaction"@.len() != "core_status"@.len());
    assert("create_custom_reaction"@.len() != "get_session"@.len());
    assert("create_custom_reaction"@.len() != "logout"@.len());
    lemma_missing_char("create_custom_reaction"@, "entity"@, 5);
    lemma_missing_char("create_custom_reaction"@, "member"@, 3);
    assert("create_custom_reaction"@.len() != "join_entity"@.len());
    assert("create_custom_reaction"@.subrange(14, 22) =~= "reaction"@);
    assert(occurs_at("create_custom_reaction"@, "reaction"@, 14));
}

/// The name `get_available_reactions` falls in Messages.
proof fn lemma_tool_get_available_reactions()
    ensures
        category_of("get_available_reactions"@) == McpToolCategory::Messages,
{
    reveal_strlit("get_available_reactions");
    reveal_strlit("authenticate");
    reveal_strlit("create_vault");
    reveal_strlit("list_vault");
    reveal_strlit("delete_vault");
    reveal_strlit("import_vault");
    reveal_strlit("export_vault");
    reveal_strlit("health_check");
    reveal_strlit("core_status");
    reveal_strlit("get_session");
    reveal_strlit("logout");
    reveal_strlit("entity");
    reveal_strlit("member");
    reveal_strlit("join_entity");
    reveal_strlit("reaction");
    lemma_prefix_mismatch("get_available_reactions"@, "authenticate"@, 0);
    lemma_prefix_mismatch("get_available_reactions"@, "create_vault"@, 0);
    lemma_prefix_mismatch("get_available_reactions"@, "list_vault"@, 0);
    lemma_prefix_mismatch("get_available_reactions"@, "delete_vault"@, 0);
    lemma_prefix_mismatch("get_available_reactions"@, "import_vault"@, 0);
    lemma_prefix_mismatch("get_available_reactions"@, "export_vault"@, 0);
    assert("get_available_reactions"@.len() != "health_check"@.len());
    assert("get_available_reactions"@.len() != "core_status"@.len());
    assert("get_available_reactions"@.len() != "get_session"@.len());
    assert("get_available_reactions"@.len() != "logout"@.len());
    lemma_missing_char("get_available_reactions"@, "entity"@, 5);
    lemma_missing_char("get_available_reactions"@, "member"@, 0);
    assert("get_available_reactions"@.len() != "join_entity"@.len());
    assert("get_available_reactions"@.subrange(14, 22) =~= "reaction"@);
    assert(occurs_at("get_available_reactions"@, "reaction"@, 14));
}

/// The name `get_unread_count` falls in Messages.
proof fn lemma_tool_get_unread_count()
    ensures
        category_of("get_unread_count"@) == McpToolCategory::Messages,
{
    reveal_strlit("get_unread_count");
    reveal_strlit("authenticate");
    reveal_strlit("create_vault");
    reveal_strlit("list_vault");
    reveal_strlit("delete_vault");
    reveal_strlit("import_vault");
    reveal_strlit("export_vault");
    reveal_strlit("health_check");
    reveal_strlit("core_status");
    reveal_strlit("get_session");
    reveal_strlit("logout");
    reveal_strlit("entity");
    reveal_strlit("member");
    reveal_strlit("join_entity");
    lemma_prefix_mismatch("get_unread_count"@, "authenticate"@, 0);
    lemma_prefix_mismatch("get_unread_count"@, "create_vault"@, 0);
    lemma_prefix_mismatch("get_unread_count"@, "list_vault"@, 0);
    lemma_prefix_mismatch("get_unread_count"@, "delete_vault"@, 0);
    lemma_prefix_mismatch("get_unread_count"@, "import_vault"@, 0);
    lemma_prefix_mismatch("get_unread_count"@, "export_vault"@, 0);
    assert("get_unread_count"@.len() != "health_check"@.len());
    assert("get_unread_count"@.len() != "core_status"@.len());
    assert("get_unread_count"@.len() != "get_session"@.len());
    assert("get_unread_count"@.len() != "logout"@.len());
    lemma_missing_char("get_unread_count"@, "entity"@, 3);
    lemma_missing_char("get_unread_count"@, "member"@, 0);
    assert("get_unread_count"@.len() != "join_entity"@.len());
}

/// The name `create_contact` falls in Network.
proof fn lemma_tool_create_contact()
    ensures
        category_of("create_contact"@) == McpToolCategory::Network,
{
    reveal_strlit("create_contact");
    reveal_strlit("authenticate");
    reveal_strlit("create_vault");
    reveal_strlit("list_vault");
    reveal_strlit("delete_vault");
    reveal_strlit("import_vault");
    reveal_strlit("export_vault");
    reveal_strlit("health_check");
    reveal_strlit("core_status");
    reveal_strlit("get_session");
    reveal_strlit("logout");
    reveal_strlit("entity");
    reveal_strlit("member");
    reveal_strlit("join_entity");
    reveal_strlit("message");
    reveal_strlit("thread");
    reveal_strlit("reaction");
    reveal_strlit("get_unread_count");
    reveal_strlit("file");
    reveal_strlit("get_disk_stats");
    reveal_strlit("upload");
    reveal_strlit("kanban");
    reveal_strlit("card");
    reveal_strlit("column");
    reveal_strlit("board");
    reveal_strlit("step");
    reveal_strlit("tag");
    reveal_strlit("network_");
    reveal_strlit("dht_");
    reveal_strlit("metrics");
    reveal_strlit("trust");
    reveal_strlit("placement");
    reveal_strlit("presence");
    reveal_strlit("poll");
    reveal_strlit("story");
    reveal_strlit("call");
    reveal_strlit("location");
    reveal_strlit("screen");
    reveal_strlit("presentation");
    reveal_strlit("website");
    reveal_strlit("workspace");
    lemma_prefix_mismatch("create_contact"@, "authenticate"@, 0);
    lemma_prefix_mismatch("create_contact"@, "create_vault"@, 7);
    lemma_prefix_mismatch("create_contact"@, "list_vault"@, 0);
    lemma_prefix_mismatch("create_contact"@, "delete_vault"@, 0);
    lemma_prefix_mismatch("create_contact"@, "import_vault"@, 0);
    lemma_prefix_mismatch("create_contact"@, "export_vault"@, 0);
    assert("create_contact"@.len() != "health_check"@.len());
    assert("create_contact"@.len() != "core_status"@.len());
    assert("create_contact"@.len() != "get_session"@.len());
    assert("create_contact"@.len() != "logout"@.len());
    lemma_missing_char("create_contact"@, "entity"@, 3);
    lemma_missing_char("create_contact"@, "member"@, 0);
    assert("create_contact"@.len() != "join_entity"@.len());
    lemma_missing_char("create_contact"@, "message"@, 0);
    lemma_missing_char("create_contact"@, "thread"@, 1);
    lemma_missing_char("create_contact"@, "reaction"@, 5);
    assert("create_contact"@.len() != "get_unread_count"@.len());
    lemma_missing_char("create_contact"@, "file"@, 0);
    assert("create_contact"@[0] != "get_disk_stats"@[0]);
    lemma_missing_char("create_contact"@, "upload"@, 0);
    lemma_missing_char("create_contact"@, "kanban"@, 0);
    lemma_missing_char("create_contact"@, "card"@, 3);
    lemma_missing_char("create_contact"@, "column"@, 2);
    lemma_missing_char("create_contact"@, "board"@, 0);
    lemma_missing_char("create_contact"@, "step"@, 0);
    lemma_missing_char("create_contact"@, "tag"@, 2);
    lemma_prefix_mismatch("create_contact"@, "network_"@, 0);
    lemma_prefix_mismatch("create_contact"@, "dht_"@, 0);
    lemma_missing_char("create_contact"@, "metrics"@, 0);
    lemma_missing_char("create_contact"@, "trust"@, 2);
    lemma_missing_char("create_contact"@, "placement"@, 0);
    lemma_missing_char("create_contact"@, "presence"@, 0);
    lemma_missing_char("create_contact"@, "poll"@, 0);
    lemma_missing_char("create_contact"@, "story"@, 0);
    lemma_missing_char("create_contact"@, "call"@, 2);
    lemma_missing_char("create_contact"@, "location"@, 0);
    lemma_missing_char("create_contact"@, "screen"@, 0);
    lemma_missing_char("create_contact"@, "presentation"@, 0);
    lemma_missing_char("create_contact"@, "website"@, 0);
    lemma_missing_char("create_contact"@, "workspace"@, 0);
}

/// The name `list_contacts` falls in Network.
proof fn lemma_tool_list_contacts()
    ensures
        category_of("list_contacts"@) == McpToolCategory::Network,
{
    reveal_strlit("list_contacts");
    reveal_strlit("authenticate");
    reveal_strlit("create_vault");
    reveal_strlit("list_vault");
    reveal_strlit("delete_vault");
    reveal_strlit("import_vault");
    reveal_strlit("export_vault");
    reveal_strlit("health_check");
    reveal_strlit("core_status");
    reveal_strlit("get_session");
    reveal_strlit("logout");
    reveal_strlit("entity");
    reveal_strlit("member");
    reveal_strlit("join_entity");
    reveal_strlit("message");
    reveal_strlit("thread");
    reveal_strlit("reaction");
    reveal_strlit("get_unread_count");
    reveal_strlit("file");
    reveal_strlit("get_disk_stats");
    reveal_strlit("upload");
    reveal_strlit("kanban");
    reveal_strlit("card");
    reveal_strlit("column");
    reveal_strlit("board");
    reveal_strlit("step");
    reveal_strlit("tag");
    reveal_strlit("network_");
    reveal_strlit("dht_");
    reveal_strlit("metrics");
    reveal_strlit("trust");
    reveal_strlit("placement");
    reveal_strlit("presence");
    reveal_strlit("poll");
    reveal_strlit("story");
    reveal_strlit("call");
    reveal_strlit("location");
    reveal_strlit("screen");
    reveal_strlit("presentation");
    reveal_strlit("website");
    reveal_strlit("workspace");
    lemma_prefix_mismatch("list_contacts"@, "authenticate"@, 0);
    lemma_prefix_mismatch("list_contacts"@, "create_vault"@, 0);
    lemma_prefix_mismatch("list_contacts"@, "list_vault"@, 5);
    lemma_prefix_mismatch("list_contacts"@, "delete_vault"@, 0);
    lemma_prefix_mismatch("list_contacts"@, "import_vault"@, 0);
    lemma_prefix_mismatch("list_contacts"@, "export_vault"@, 0);
    assert("list_contacts"@.len() != "health_check"@.len());
    assert("list_contacts"@.len() != "core_status"@.len());
    assert("list_contacts"@.len() != "get_session"@.len());
    assert("list_contacts"@.len() != "logout"@.len());
    lemma_missing_char("list_contacts"@, "entity"@, 0);
    lemma_missing_char("list_contacts"@, "member"@, 0);
    assert("list_contacts"@.len() != "join_entity"@.len());
    lemma_missing_char("list_contacts"@, "message"@, 0);
    lemma_missing_char("list_contacts"@, "thread"@, 1);
    lemma_missing_char("list_contacts"@, "reaction"@, 0);
    assert("list_contacts"@.len() != "get_unread_count"@.len());
    lemma_missing_char("list_contacts"@, "file"@, 0);
    assert("list_contacts"@.len() != "get_disk_stats"@.len());
    lemma_missing_char("list_contacts"@, "upload"@, 0);
    lemma_missing_char("list_contacts"@, "kanban"@, 0);
    lemma_missing_char("list_contacts"@, "card"@, 2);
    lemma_missing_char("list_contacts"@, "column"@, 3);
    lemma_missing_char("list_contacts"@, "board"@, 0);
    lemma_missing_char("list_contacts"@, "step"@, 2);
    lemma_missing_char("list_contacts"@, "tag"@, 2);
    lemma_prefix_mismatch("list_contacts"@, "network_"@, 0);
    lemma_prefix_mismatch("list_contacts"@, "dht_"@, 0);
    lemma_missing_char("list_contacts"@, "metrics"@, 0);
    lemma_missing_char("list_contacts"@, "trust"@, 1);
    lemma_missing_char("list_contacts"@, "placement"@, 0);
    lemma_missing_char("list_contacts"@, "presence"@, 0);
    lemma_missing_char("list_contacts"@, "poll"@, 0);
    lemma_missing_char("list_contacts"@, "story"@, 3);
    lemma_missing_pair("list_contacts"@, "call"@, 0);
    lemma_missing_pair("list_contacts"@, "location"@, 0);
    lemma_missing_char("list_contacts"@, "screen"@, 2);
    lemma_missing_char("list_contacts"@, "presentation"@, 0);
    lemma_missing_char("list_contacts"@, "website"@, 0);
    lemma_missing_char("list_contacts"@, "workspace"@, 0);
}

/// The name `write_file` falls in Files.
proof fn lemma_tool_write_file()
    ensures
        category_of("write_file"@) == McpToolCategory::Files,
{
    reveal_strlit("write_file");
    reveal_strlit("authenticate");
    reveal_strlit("create_vault");
    reveal_strlit("list_vault");
    reveal_strlit("delete_vault");
    reveal_strlit("import_vault");
    reveal_strlit("export_vault");
    reveal_strlit("health_check");
    reveal_strlit("core_status");
    reveal_strlit("get_session");
    reveal_strlit("logout");
    reveal_strlit("entity");
    reveal_strlit("member");
    reveal_strlit("join_entity");
    reveal_strlit("message");
    reveal_strlit("thread");
    reveal_strlit("reaction");
    reveal_strlit("get_unread_count");
    reveal_strlit("file");
    lemma_prefix_mismatch("write_file"@, "list_vault"@, 0);
    assert("write_file"@.len() != "health_check"@.len());
    assert("write_file"@.len() != "core_status"@.len());
    assert("write_file"@.len() != "get_session"@.len());
    assert("write_file"@.len() != "logout"@.len());
    lemma_missing_char("write_file"@, "entity"@, 1);
    lemma_missing_char("write_file"@, "member"@, 0);
    assert("write_file"@.len() != "join_entity"@.len());
    lemma_missing_char("write_file"@, "message"@, 0);
    lemma_missing_char("write_file"@, "thread"@, 1);
    lemma_missing_char("write_file"@, "reaction"@, 2);
    assert("write_file"@.len() != "get_unread_count"@.len());
    assert("write_file"@.subrange(6, 10) =~= "file"@);
    assert(occurs_at("write_file"@, "file"@, 6));
}

/// The name `read_file` falls in Files.
proof fn lemma_tool_read_file()
    ensures
        category_of("read_file"@) == McpToolCategory::Files,
{
    reveal_strlit("read_file");
    reveal_strlit("authenticate");
    reveal_strlit("create_vault");
    reveal_strlit("list_vault");
    reveal_strlit("delete_vault");
    reveal_strlit("import_vault");
    reveal_strlit("export_vault");
    reveal_strlit("health_check");
    reveal_strlit("core_status");
    reveal_strlit("get_session");
    reveal_strlit("logout");
    reveal_strlit("entity");
    reveal_strlit("member");
    reveal_strlit("join_entity");
    reveal_strlit("message");
    reveal_strlit("thread");
    reveal_strlit("reaction");
    reveal_strlit("get_unread_count");
    reveal_strlit("file");
    assert("read_file"@.len() != "health_check"@.len());
    assert("read_file"@.len() != "core_status"@.len());
    assert("read_file"@.len() != "get_session"@.len());
    assert("read_file"@.len() != "logout"@.len());
    lemma_missing_char("read_file"@, "entity"@, 1);
    lemma_missing_char("read_file"@, "member"@, 0);
    assert("read_file"@.len() != "join_entity"@.len());
    lemma_missing_char("read_file"@, "message"@, 0);
    lemma_missing_char("read_file"@, "thread"@, 0);
    lemma_missing_char("read_file"@, "reaction"@, 3);
    assert("read_file"@.len() != "get_unread_count"@.len());
    assert("read_file"@.subrange(5, 9) =~= "file"@);
    assert(occurs_at("read_file"@, "file"@, 5));
}

/// The name `list_files` falls in Files.
proof fn lemma_tool_list_files()
    ensures
        category_of("list_files"@) == McpToolCategory::Files,
{
    reveal_strlit("list_files");
    reveal_strlit("authenticate");
    reveal_strlit("create_vault");
    reveal_strlit("list_vault");
    reveal_strlit("delete_vault");
    reveal_strlit("import_vault");
    reveal_strlit("export_vault");
    reveal_strlit("health_check");
    reveal_strlit("core_status");
    reveal_strlit("get_session");
    reveal_strlit("logout");
    reveal_strlit("entity");
    reveal_strlit("member");
    reveal_strlit("join_entity");
    reveal_strlit("message");
    reveal_strlit("thread");
    reveal_strlit("reaction");
    reveal_strlit("get_unread_count");
    reveal_strlit("file");
    lemma_prefix_mismatch("list_files"@, "list_vault"@, 5);
    assert("list_files"@.len() != "health_check"@.len());
    assert("list_files"@.len() != "core_status"@.len());
    assert("list_files"@.len() != "get_session"@.len());
    assert("list_files"@.len() != "logout"@.len());
    lemma_missing_char("list_files"@, "entity"@, 1);
    lemma_missing_char("list_files"@, "member"@, 0);
    assert("list_files"@.len() != "join_entity"@.len());
    lemma_missing_char("list_files"@, "message"@, 0);
    lemma_missing_char("list_files"@, "thread"@, 1);
    lemma_missing_char("list_files"@, "reaction"@, 0);
    assert("list_files"@.len() != "get_unread_count"@.len());
    assert("list_files"@.subrange(5, 9) =~= "file"@);
    assert(occurs_at("list_files"@, "file"@, 5));
}

/// The name `delete_file` falls in Files.
proof fn lemma_tool_delete_file()
    ensures
        category_of("delete_file"@) == McpToolCategory::Files,
{
    reveal_strlit("delete_file");
    reveal_strlit("authenticate");
    reveal_strlit("create_vault");
    reveal_strlit("list_vault");
    reveal_strlit("delete_vault");
    reveal_strlit("import_vault");
    reveal_strlit("export_vault");
    reveal_strlit("health_check");
    reveal_strlit("core_status");
    reveal_strlit("get_session");
    reveal_strlit("logout");
    reveal_strlit("entity");
    reveal_strlit("member");
    reveal_strlit("join_entity");
    reveal_strlit("message");
    reveal_strlit("thread");
    reveal_strlit("reaction");
    reveal_strlit("get_unread_count");
    reveal_strlit("file");
    lemma_prefix_mismatch("delete_file"@, "list_vault"@, 0);
    assert("delete_file"@.len() != "health_check"@.len());
    assert("delete_file"@[0] != "core_status"@[0]);
    assert("delete_file"@[0] != "get_session"@[0]);
    assert("delete_file"@.len() != "logout"@.len());
    lemma_missing_char("delete_file"@, "entity"@, 1);
    lemma_missing_char("delete_file"@, "member"@, 0);
    assert("delete_file"@[0] != "join_entity"@[0]);
    lemma_missing_char("delete_file"@, "message"@, 0);
    lemma_missing_char("delete_file"@, "thread"@, 1);
    lemma_missing_char("delete_file"@, "reaction"@, 0);
    assert("delete_file"@.len() != "get_unread_count"@.len());
    assert("delete_file"@.subrange(7, 11) =~= "file"@);
    assert(occurs_at("delete_file"@, "file"@, 7));
}

/// The name `get_disk_stats` falls in Files.
proof fn lemma_tool_get_disk_stats()
    ensures
        category_of("get_disk_stats"@) == McpToolCategory::Files,
{
    reveal_strlit("get_disk_stats");
    reveal_strlit("authenticate");
    reveal_strlit("create_vault");
    reveal_strlit("list_vault");
    reveal_strlit("delete_vault");
    reveal_strlit("import_vault");
    reveal_strlit("export_vault");
    reveal_strlit("health_check");
    reveal_strlit("core_status");
    reveal_strlit("get_session");
    reveal_strlit("logout");
    reveal_strlit("entity");
    reveal_strlit("member");
    reveal_strlit("join_entity");
    reveal_strlit("message");
    reveal_strlit("thread");
    reveal_strlit("reaction");
    reveal_strlit("get_unread_count");
    lemma_prefix_mismatch("get_disk_stats"@, "authenticate"@, 0);
    lemma_prefix_mismatch("get_disk_stats"@, "create_vault"@, 0);
    lemma_prefix_mismatch("get_disk_stats"@, "list_vault"@, 0);
    lemma_prefix_mismatch("get_disk_stats"@, "delete_vault"@, 0);
    lemma_prefix_mismatch("get_disk_stats"@, "import_vault"@, 0);
    lemma_prefix_mismatch("get_disk_stats"@, "export_vault"@, 0);
    assert("get_disk_stats"@.len() != "health_check"@.len());
    assert("get_disk_stats"@.len() != "core_status"@.len());
    assert("get_disk_stats"@.len() != "get_session"@.len());
    assert("get_disk_stats"@.len() != "logout"@.len());
    lemma_missing_char("get_disk_stats"@, "entity"@, 1);
    lemma_missing_char("get_disk_stats"@, "member"@, 0);
    assert("get_disk_stats"@.len() != "join_entity"@.len());
    lemma_missing_char("get_disk_stats"@, "message"@, 0);
    lemma_missing_char("get_disk_stats"@, "thread"@, 1);
    lemma_missing_char("get_disk_stats"@, "reaction"@, 0);
    assert("get_disk_stats"@.len() != "get_unread_count"@.len());
}

/// The name `upload_with_metadata` falls in Files.
proof fn lemma_tool_upload_with_metadata()
    ensures
        category_of("upload_with_metadata"@) == McpToolCategory::Files,
{
    reveal_strlit("upload_with_metadata");
    reveal_strlit("authenticate");
    reveal_strlit("create_vault");
    reveal_strlit("list_vault");
    reveal_strlit("delete_vault");
    reveal_strlit("import_vault");
    reveal_strlit("export_vault");
    reveal_strlit("health_check");
    reveal_strlit("core_status");
    reveal_strlit("get_session");
    reveal_strlit("logout");
    reveal_strlit("entity");
    reveal_strlit("member");
    reveal_strlit("join_entity");
    reveal_strlit("message");
    reveal_strlit("thread");
    reveal_strlit("reaction");
    reveal_strlit("get_unread_count");
    reveal_strlit("upload");
    lemma_prefix_mismatch("upload_with_metadata"@, "authenticate"@, 0);
    lemma_prefix_mismatch("upload_with_metadata"@, "create_vault"@, 0);
    lemma_prefix_mismatch("upload_with_metadata"@, "list_vault"@, 0);
    lemma_prefix_mismatch("upload_with_metadata"@, "delete_vault"@, 0);
    lemma_prefix_mismatch("upload_with_metadata"@, "import_vault"@, 0);
    lemma_prefix_mismatch("upload_with_metadata"@, "export_vault"@, 0);
    assert("upload_with_metadata"@.len() != "health_check"@.len());
    assert("upload_with_metadata"@.len() != "core_status"@.len());
    assert("upload_with_metadata"@.len() != "get_session"@.len());
    assert("upload_with_metadata"@.len() != "logout"@.len());
    lemma_missing_char("upload_with_metadata"@, "entity"@, 1);
    lemma_missing_char("upload_with_metadata"@, "member"@, 3);
    assert("upload_with_metadata"@.len() != "join_entity"@.len());
    lemma_missing_char("upload_with_metadata"@, "message"@, 2);
    lemma_missing_char("upload_with_metadata"@, "thread"@, 2);
    lemma_missing_char("upload_with_metadata"@, "reaction"@, 0);
    assert("upload_with_metadata"@.len() != "get_unread_count"@.len());
    assert("upload_with_metadata"@.subrange(0, 6) =~= "upload"@);
    assert(occurs_at("upload_with_metadata"@, "upload"@, 0));
}

/// The name `create_kanban_board` falls in Kanban.
proof fn lemma_tool_create_kanban_board()
    ensures
        category_of("create_kanban_board"@) == McpToolCategory::Kanban,
{
    reveal_strlit("create_kanban_board");
    reveal_strlit("authenticate");
    reveal_strlit("create_vault");
    reveal_strlit("list_vault");
    reveal_strlit("delete_vault");
    reveal_strlit("import_vault");
    reveal_strlit("export_vault");
    reveal_strlit("health_check");
    reveal_strlit("core_status");
    reveal_strlit("get_session");
    reveal_strlit("logout");
    reveal_strlit("entity");
    reveal_strlit("member");
    reveal_strlit("join_entity");
    reveal_strlit("message");
    reveal_strlit("thread");
    reveal_strlit("reaction");
    reveal_strlit("get_unread_count");
    reveal_strlit("file");
    reveal_strlit("get_disk_stats");
    reveal_strlit("upload");
    reveal_strlit("kanban");
    lemma_prefix_mismatch("create_kanban_board"@, "authenticate"@, 0);
    lemma_prefix_mismatch("create_kanban_board"@, "create_vault"@, 7);
    lemma_prefix_mismatch("create_kanban_board"@, "list_vault"@, 0);
    lemma_prefix_mismatch("create_kanban_board"@, "delete_vault"@, 0);
    lemma_prefix_mismatch("create_kanban_board"@, "import_vault"@, 0);
    lemma_prefix_mismatch("create_kanban_board"@, "export_vault"@, 0);
    assert("create_kanban_board"@.len() != "health_check"@.len());
    assert("create_kanban_board"@.len() != "core_status"@.len());
    assert("create_kanban_board"@.len() != "get_session"@.len());
    assert("create_kanban_board"@.len() != "logout"@.len());
    lemma_missing_char("create_kanban_board"@, "entity"@, 3);
    lemma_missing_char("create_kanban_board"@, "member"@, 0);
    assert("create_kanban_board"@.len() != "join_entity"@.len());
    lemma_missing_char("create_kanban_board"@, "message"@, 0);
    lemma_missing_char("create_kanban_board"@, "thread"@, 1);
    lemma_missing_char("create_kanban_board"@, "reaction"@, 5);
    assert("create_kanban_board"@.len() != "get_unread_count"@.len());
    lemma_missing_char("create_kanban_board"@, "file"@, 0);
    assert("create_kanban_board"@.len() != "get_disk_stats"@.len());
    lemma_missing_char("create_kanban_board"@, "upload"@, 0);
    assert("create_kanban_board"@.subrange(7, 13) =~= "kanban"@);
    assert(occurs_at("create_kanban_board"@, "kanban"@, 7));
}

/// The name `update_kanban_board` falls in Kanban.
proof fn lemma_tool_update_kanban_board()
    ensures
        category_of("update_kanban_board"@) == McpToolCategory::Kanban,
{
    reveal_strlit("update_kanban_board");
    reveal_strlit("authenticate");
    reveal_strlit("create_vault");
    reveal_strlit("list_vault");
    reveal_strlit("delete_vault");
    reveal_strlit("import_vault");
    reveal_strlit("export_vault");
    reveal_strlit("health_check");
    reveal_strlit("core_status");
    reveal_strlit("get_session");
    reveal_strlit("logout");
    reveal_strlit("entity");
    reveal_strlit("member");
    reveal_strlit("join_entity");
    reveal_strlit("message");
    reveal_strlit("thread");
    reveal_strlit("reaction");
    reveal_strlit("get_unread_count");
    reveal_strlit("file");
    reveal_strlit("get_disk_stats");
    reveal_strlit("upload");
    reveal_strlit("kanban");
    lemma_prefix_mismatch("update_kanban_board"@, "authenticate"@, 0);
    lemma_prefix_mismatch("update_kanban_board"@, "create_vault"@, 0);
    lemma_prefix_mismatch("update_kanban_board"@, "list_vault"@, 0);
    lemma_prefix_mismatch("update_kanban_board"@, "delete_vault"@, 0);
    lemma_prefix_mismatch("update_kanban_board"@, "import_vault"@, 0);
    lemma_prefix_mismatch("update_kanban_board"@, "export_vault"@, 0);
    assert("update_kanban_board"@.len() != "health_check"@.len());
    assert("update_kanban_board"@.len() != "core_status"@.len());
    assert("update_kanban_board"@.len() != "get_session"@.len());
    assert("update_kanban_board"@.len() != "logout"@.len());
    lemma_missing_char("update_kanban_board"@, "entity"@, 3);
    lemma_missing_char("update_kanban_board"@, "member"@, 0);
    assert("update_kanban_board"@.len() != "join_entity"@.len());
    lemma_missing_char("update_kanban_board"@, "message"@, 0);
    lemma_missing_char("update_kanban_board"@, "thread"@, 1);
    lemma_missing_char("update_kanban_board"@, "reaction"@, 3);
    assert("update_kanban_board"@.len() != "get_unread_count"@.len());
    lemma_missing_char("update_kanban_board"@, "file"@, 0);
    assert("update_kanban_board"@.len() != "get_disk_stats"@.len());
    lemma_missing_char("update_kanban_board"@, "upload"@, 2);
    assert("update_kanban_board"@.subrange(7, 13) =~= "kanban"@);
    assert(occurs_at("update_kanban_board"@, "kanban"@, 7));
}

/// The name `delete_kanban_board` falls in Kanban.
proof fn lemma_tool_delete_kanban_board()
    ensures
        category_of("delete_kanban_board"@) == McpToolCategory::Kanban,
{
    reveal_strlit("delete_kanban_board");
    reveal_strlit("authenticate");
    reveal_strlit("create_vault");
    reveal_strlit("list_vault");
    reveal_strlit("delete_vault");
    reveal_strlit("import_vault");
    reveal_strlit("export_vault");
    reveal_strlit("health_check");
    reveal_strlit("core_status");
    reveal_strlit("get_session");
    reveal_strlit("logout");
    reveal_strlit("entity");
    reveal_strlit("member");
    reveal_strlit("join_entity");
    reveal_strlit("message");
    reveal_strlit("thread");
    reveal_strlit("reaction");
    reveal_strlit("get_unread_count");
    reveal_strlit("file");
    reveal_strlit("get_disk_stats");
    reveal_strlit("upload");
    reveal_strlit("kanban");
    lemma_prefix_mismatch("delete_kanban_board"@, "authenticate"@, 0);
    lemma_prefix_mismatch("delete_kanban_board"@, "create_vault"@, 0);
    lemma_prefix_mismatch("delete_kanban_board"@, "list_vault"@, 0);
    lemma_prefix_mismatch("delete_kanban_board"@, "delete_vault"@, 7);
    lemma_prefix_mismatch("delete_kanban_board"@, "import_vault"@, 0);
    lemma_prefix_mismatch("delete_kanban_board"@, "export_vault"@, 0);
    assert("delete_kanban_board"@.len() != "health_check"@.len());
    assert("delete_kanban_board"@.len() != "core_status"@.len());
    assert("delete_kanban_board"@.len() != "get_session"@.len());
    assert("delete_kanban_board"@.len() != "logout"@.len());
    lemma_missing_char("delete_kanban_board"@, "entity"@, 3);
    lemma_missing_char("delete_kanban_board"@, "member"@, 0);
    assert("delete_kanban_board"@.len() != "join_entity"@.len());
    lemma_missing_char("delete_kanban_board"@, "message"@, 0);
    lemma_missing_char("delete_kanban_board"@, "thread"@, 1);
    lemma_missing_char("delete_kanban_board"@, "reaction"@, 3);
    assert("delete_kanban_board"@.len() != "get_unread_count"@.len());
    lemma_missing_char("delete_kanban_board"@, "file"@, 0);
    assert("delete_kanban_board"@.len() != "get_disk_stats"@.len());
    lemma_missing_char("delete_kanban_board"@, "upload"@, 0);
    assert("delete_kanban_board"@.subrange(7, 13) =~= "kanban"@);
    assert(occurs_at("delete_kanban_board"@, "kanban"@, 7));
}

/// The name `list_kanban_boards` falls in Kanban.
proof fn lemma_tool_list_kanban_boards()
    ensures
        category_of("list_kanban_boards"@) == McpToolCategory::Kanban,
{
    reveal_strlit("list_kanban_boards");
    reveal_strlit("authenticate");
    reveal_strlit("create_vault");
    reveal_strlit("list_vault");
    reveal_strlit("delete_vault");
    reveal_strlit("import_vault");
    reveal_strlit("export_vault");
    reveal_strlit("health_check");
    reveal_strlit("core_status");
    reveal_strlit("get_session");
    reveal_strlit("logout");
    reveal_strlit("entity");
    reveal_strlit("member");
    reveal_strlit("join_entity");
    reveal_strlit("message");
    reveal_strlit("thread");
    reveal_strlit("reaction");
    reveal_strlit("get_unread_count");
    reveal_strlit("file");
    reveal_strlit("get_disk_stats");
    reveal_strlit("upload");
    reveal_strlit("kanban");
    lemma_prefix_mismatch("list_kanban_boards"@, "authenticate"@, 0);
    lemma_prefix_mismatch("list_kanban_boards"@, "create_vault"@, 0);
    lemma_prefix_mismatch("list_kanban_boards"@, "list_vault"@, 5);
    lemma_prefix_mismatch("list_kanban_boards"@, "delete_vault"@, 0);
    lemma_prefix_mismatch("list_kanban_boards"@, "import_vault"@, 0);
    lemma_prefix_mismatch("list_kanban_boards"@, "export_vault"@, 0);
    assert("list_kanban_boards"@.len() != "health_check"@.len());
    assert("list_kanban_boards"@.len() != "core_status"@.len());
    assert("list_kanban_boards"@.len() != "get_session"@.len());
    assert("list_kanban_boards"@.len() != "logout"@.len());
    lemma_missing_char("list_kanban_boards"@, "entity"@, 0);
    lemma_missing_char("list_kanban_boards"@, "member"@, 0);
    assert("list_kanban_boards"@.len() != "join_entity"@.len());
    lemma_missing_char("list_kanban_boards"@, "message"@, 0);
    lemma_missing_char("list_kanban_boards"@, "thread"@, 1);
    lemma_missing_char("list_kanban_boards"@, "reaction"@, 1);
    assert("list_kanban_boards"@.len() != "get_unread_count"@.len());
    lemma_missing_char("list_kanban_boards"@, "file"@, 0);
    assert("list_kanban_boards"@.len() != "get_disk_stats"@.len());
    lemma_missing_char("list_kanban_boards"@, "upload"@, 0);
    assert("list_kanban_boards"@.subrange(5, 11) =~= "kanban"@);
    assert(occurs_at("list_kanban_boards"@, "kanban"@, 5));
}

/// The name `get_kanban_board` falls in Kanban.
proof fn lemma_tool_get_kanban_board()
    ensures
        category_of("get_kanban_board"@) == McpToolCategory::Kanban,
{
    reveal_strlit("get_kanban_board");
    reveal_strlit("authenticate");
    reveal_strlit("create_vault");
    reveal_strlit("list_vault");
    reveal_strlit("delete_vault");
    reveal_strlit("import_vault");
    reveal_strlit("export_vault");
    reveal_strlit("health_check");
    reveal_strlit("core_status");
    reveal_strlit("get_session");
    reveal_strlit("logout");
    reveal_strlit("entity");
    reveal_strlit("member");
    reveal_strlit("join_entity");
    reveal_strlit("message");
    reveal_strlit("thread");
    reveal_strlit("reaction");
    reveal_strlit("get_unread_count");
    reveal_strlit("file");
    reveal_strlit("get_disk_stats");
    reveal_strlit("upload");
    reveal_strlit("kanban");
    lemma_prefix_mismatch("get_kanban_board"@, "authenticate"@, 0);
    lemma_prefix_mismatch("get_kanban_board"@, "create_vault"@, 0);
    lemma_prefix_mismatch("get_kanban_board"@, "list_vault"@, 0);
    lemma_prefix_mismatch("get_kanban_board"@, "delete_vault"@, 0);
    lemma_prefix_mismatch("get_kanban_board"@, "import_vault"@, 0);
    lemma_prefix_mismatch("get_kanban_board"@, "export_vault"@, 0);
    assert("get_kanban_board"@.len() != "health_check"@.len());
    assert("get_kanban_board"@.len() != "core_status"@.len());
    assert("get_kanban_board"@.len() != "get_session"@.len());
    assert("get_kanban_board"@.len() != "logout"@.len());
    lemma_missing_char("get_kanban_board"@, "entity"@, 3);
    lemma_missing_char("get_kanban_board"@, "member"@, 0);
    assert("get_kanban_board"@.len() != "join_entity"@.len());
    lemma_missing_char("get_kanban_board"@, "message"@, 0);
    lemma_missing_char("get_kanban_board"@, "thread"@, 1);
    lemma_missing_char("get_kanban_board"@, "reaction"@, 3);
    assert("get_kanban_board"@[4] != "get_unread_count"@[4]);
    lemma_missing_char("get_kanban_board"@, "file"@, 0);
    assert("get_kanban_board"@.len() != "get_disk_stats"@.len());
    lemma_missing_char("get_kanban_board"@, "upload"@, 0);
    assert("get_kanban_board"@.subrange(4, 10) =~= "kanban"@);
    assert(occurs_at("get_kanban_board"@, "kanban"@, 4));
}

/// The name `create_kanban_card` falls in Kanban.
proof fn lemma_tool_create_kanban_card()
    ensures
        category_of("create_kanban_card"@) == McpToolCategory::Kanban,
{
    reveal_strlit("create_kanban_card");
    reveal_strlit("authenticate");
    reveal_strlit("create_vault");
    reveal_strlit("list_vault");
    reveal_strlit("delete_vault");
    reveal_strlit("import_vault");
    reveal_strlit("export_vault");
    reveal_strlit("health_check");
    reveal_strlit("core_status");
    reveal_strlit("get_session");
    reveal_strlit("logout");
    reveal_strlit("entity");
    reveal_strlit("member");
    reveal_strlit("join_entity");
    reveal_strlit("message");
    reveal_strlit("thread");
    reveal_strlit("reaction");
    reveal_strlit("get_unread_count");
    reveal_strlit("file");
    reveal_strlit("get_disk_stats");
    reveal_strlit("upload");
    reveal_strlit("kanban");
    lemma_prefix_mismatch("create_kanban_card"@, "authenticate"@, 0);
    lemma_prefix_mismatch("create_kanban_card"@, "create_vault"@, 7);
    lemma_prefix_mismatch("create_kanban_card"@, "list_vault"@, 0);
    lemma_prefix_mismatch("create_kanban_card"@, "delete_vault"@, 0);
    lemma_prefix_mismatch("create_kanban_card"@, "import_vault"@, 0);
    lemma_prefix_mismatch("create_kanban_card"@, "export_vault"@, 0);
    assert("create_kanban_card"@.len() != "health_check"@.len());
    assert("create_kanban_card"@.len() != "core_status"@.len());
    assert("create_kanban_card"@.len() != "get_session"@.len());
    assert("create_kanban_card"@.len() != "logout"@.len());
    lemma_missing_char("create_kanban_card"@, "entity"@, 3);
    lemma_missing_char("create_kanban_card"@, "member"@, 0);
    assert("create_kanban_card"@.len() != "join_entity"@.len());
    lemma_missing_char("create_kanban_card"@, "message"@, 0);
    lemma_missing_char("create_kanban_card"@, "thread"@, 1);
    lemma_missing_char("create_kanban_card"@, "reaction"@, 5);
    assert("create_kanban_card"@.len() != "get_unread_count"@.len());
    lemma_missing_char("create_kanban_card"@, "file"@, 0);
    assert("create_kanban_card"@.len() != "get_disk_stats"@.len());
    lemma_missing_char("create_kanban_card"@, "upload"@, 0);
    assert("create_kanban_card"@.subrange(7, 13) =~= "kanban"@);
    assert(occurs_at("create_kanban_card"@, "kanban"@, 7));
}

/// The name `update_kanban_card` falls in Kanban.
proof fn lemma_tool_update_kanban_card()
    ensures
        category_of("update_kanban_card"@) == McpToolCategory::Kanban,
{
    reveal_strlit("update_kanban_card");
    reveal_strlit("authenticate");
    reveal_strlit("create_vault");
    reveal_strlit("list_vault");
    reveal_strlit("delete_vault");
    reveal_strlit("import_vault");
    reveal_strlit("export_vault");
    reveal_strlit("health_check");
    reveal_strlit("core_status");
    reveal_strlit("get_session");
    reveal_strlit("logout");
    reveal_strlit("entity");
    reveal_strlit("member");
    reveal_strlit("join_entity");
    reveal_strlit("message");
    reveal_strlit("thread");
    reveal_strlit("reaction");
    reveal_strlit("get_unread_count");
    reveal_strlit("file");
    reveal_strlit("get_disk_stats");
    reveal_strlit("upload");
    reveal_strlit("kanban");
    lemma_prefix_mismatch("update_kanban_card"@, "authenticate"@, 0);
    lemma_prefix_mismatch("update_kanban_card"@, "create_vault"@, 0);
    lemma_prefix_mismatch("update_kanban_card"@, "list_vault"@, 0);
    lemma_prefix_mismatch("update_kanban_card"@, "delete_vault"@, 0);
    lemma_prefix_mismatch("update_kanban_card"@, "import_vault"@, 0);
    lemma_prefix_mismatch("update_kanban_card"@, "export_vault"@, 0);
    assert("update_kanban_card"@.len() != "health_check"@.len());
    assert("update_kanban_card"@.len() != "core_status"@.len());
    assert("update_kanban_card"@.len() != "get_session"@.len());
    assert("update_kanban_card"@.len() != "logout"@.len());
    lemma_missing_char("update_kanban_card"@, "entity"@, 3);
    lemma_missing_char("update_kanban_card"@, "member"@, 0);
    assert("update_kanban_card"@.len() != "join_entity"@.len());
    lemma_missing_char("update_kanban_card"@, "message"@, 0);
    lemma_missing_char("update_kanban_card"@, "thread"@, 1);
    lemma_missing_char("update_kanban_card"@, "reaction"@, 5);
    assert("update_kanban_card"@.len() != "get_unread_count"@.len());
    lemma_missing_char("update_kanban_card"@, "file"@, 0);
    assert("update_kanban_card"@.len() != "get_disk_stats"@.len());
    lemma_missing_char("update_kanban_card"@, "upload"@, 2);
    assert("update_kanban_card"@.subrange(7, 13) =~= "kanban"@);
    assert(occurs_at("update_kanban_card"@, "kanban"@, 7));
}

/// The name `delete_kanban_card` falls in Kanban.
proof fn lemma_tool_delete_kanban_card()
    ensures
        category_of("delete_kanban_card"@) == McpToolCategory::Kanban,
{
    reveal_strlit("delete_kanban_card");
    reveal_strlit("authenticate");
    reveal_strlit("create_vault");
    reveal_strlit("list_vault");
    reveal_strlit("delete_vault");
    reveal_strlit("import_vault");
    reveal_strlit("export_vault");
    reveal_strlit("health_check");
    reveal_strlit("core_status");
    reveal_strlit("get_session");
    reveal_strlit("logout");
    reveal_strlit("entity");
    reveal_strlit("member");
    reveal_strlit("join_entity");
    reveal_strlit("message");
    reveal_strlit("thread");
    reveal_strlit("reaction");
    reveal_strlit("get_unread_count");
    reveal_strlit("file");
    reveal_strlit("get_disk_stats");
    reveal_strlit("upload");
    reveal_strlit("kanban");
    lemma_prefix_mismatch("delete_kanban_card"@, "authenticate"@, 0);
    lemma_prefix_mismatch("delete_kanban_card"@, "create_vault"@, 0);
    lemma_prefix_mismatch("delete_kanban_card"@, "list_vault"@, 0);
    lemma_prefix_mismatch("delete_kanban_card"@, "delete_vault"@, 7);
    lemma_prefix_mismatch("delete_kanban_card"@, "import_vault"@, 0);
    lemma_prefix_mismatch("delete_kanban_card"@, "export_vault"@, 0);
    assert("delete_kanban_card"@.len() != "health_check"@.len());
    assert("delete_kanban_card"@.len() != "core_status"@.len());
    assert("delete_kanban_card"@.len() != "get_session"@.len());
    assert("delete_kanban_card"@.len() != "logout"@.len());
    lemma_missing_char("delete_kanban_card"@, "entity"@, 3);
    lemma_missing_char("delete_kanban_card"@, "member"@, 0);
    assert("delete_kanban_card"@.len() != "join_entity"@.len());
    lemma_missing_char("delete_kanban_card"@, "message"@, 0);
    lemma_missing_char("delete_kanban_card"@, "thread"@, 1);
    lemma_missing_char("delete_kanban_card"@, "reaction"@, 5);
    assert("delete_kanban_card"@.len() != "get_unread_count"@.len());
    lemma_missing_char("delete_kanban_card"@, "file"@, 0);
    assert("delete_kanban_card"@.len() != "get_disk_stats"@.len());
    lemma_missing_char("delete_kanban_card"@, "upload"@, 0);
    assert("delete_kanban_card"@.subrange(7, 13) =~= "kanban"@);
    assert(occurs_at("delete_kanban_card"@, "kanban"@, 7));
}

/// The name `list_kanban_cards` falls in Kanban.
proof fn lemma_tool_list_kanban_cards()
    ensures
        category_of("list_kanban_cards"@) == McpToolCategory::Kanban,
{
    reveal_strlit("list_kanban_cards");
    reveal_strlit("authenticate");
    reveal_strlit("create_vault");
    reveal_strlit("list_vault");
    reveal_strlit("delete_vault");
    reveal_strlit("import_vault");
    reveal_strlit("export_vault");
    reveal_strlit("health_check");
    reveal_strlit("core_status");
    reveal_strlit("get_session");
    reveal_strlit("logout");
    reveal_strlit("entity");
    reveal_strlit("member");
    reveal_strlit("join_entity");
    reveal_strlit("message");
    reveal_strlit("thread");
    reveal_strlit("reaction");
    reveal_strlit("get_unread_count");
    reveal_strlit("file");
    reveal_strlit("get_disk_stats");
    reveal_strlit("upload");
    reveal_strlit("kanban");
    lemma_prefix_mismatch("list_kanban_cards"@, "authenticate"@, 0);
    lemma_prefix_mismatch("list_kanban_cards"@, "create_vault"@, 0);
    lemma_prefix_mismatch("list_kanban_cards"@, "list_vault"@, 5);
    lemma_prefix_mismatch("list_kanban_cards"@, "delete_vault"@, 0);
    lemma_prefix_mismatch("list_kanban_cards"@, "import_vault"@, 0);
    lemma_prefix_mismatch("list_kanban_cards"@, "export_vault"@, 0);
    assert("list_kanban_cards"@.len() != "health_check"@.len());
    assert("list_kanban_cards"@.len() != "core_status"@.len());
    assert("list_kanban_cards"@.len() != "get_session"@.len());
    assert("list_kanban_cards"@.len() != "logout"@.len());
    lemma_missing_char("list_kanban_cards"@, "entity"@, 0);
    lemma_missing_char("list_kanban_cards"@, "member"@, 0);
    assert("list_kanban_cards"@.len() != "join_entity"@.len());
    lemma_missing_char("list_kanban_cards"@, "message"@, 0);
    lemma_missing_char("list_kanban_cards"@, "thread"@, 1);
    lemma_missing_char("list_kanban_cards"@, "reaction"@, 1);
    assert("list_kanban_cards"@.len() != "get_unread_count"@.len());
    lemma_missing_char("list_kanban_cards"@, "file"@, 0);
    assert("list_kanban_cards"@.len() != "get_disk_stats"@.len());
    lemma_missing_char("list_kanban_cards"@, "upload"@, 0);
    assert("list_kanban_cards"@.subrange(5, 11) =~= "kanban"@);
    assert(occurs_at("list_kanban_cards"@, "kanban"@, 5));
}

/// The name `move_kanban_card` falls in Kanban.
proof fn lemma_tool_move_kanban_card()
    ensures
        category_of("move_kanban_card"@) == McpToolCategory::Kanban,
{
    reveal_strlit("move_kanban_card");
    reveal_strlit("authenticate");
    reveal_strlit("create_vault");
    reveal_strlit("list_vault");
    reveal_strlit("delete_vault");
    reveal_strlit("import_vault");
    reveal_strlit("export_vault");
    reveal_strlit("health_check");
    reveal_strlit("core_status");
    reveal_strlit("get_session");
    reveal_strlit("logout");
    reveal_strlit("entity");
    reveal_strlit("member");
    reveal_strlit("join_entity");
    reveal_strlit("message");
    reveal_strlit("thread");
    reveal_strlit("reaction");
    reveal_strlit("get_unread_count");
    reveal_strlit("file");
    reveal_strlit("get_disk_stats");
    reveal_strlit("upload");
    reveal_strlit("kanban");
    lemma_prefix_mismatch("move_kanban_card"@, "authenticate"@, 0);
    lemma_prefix_mismatch("move_kanban_card"@, "create_vault"@, 0);
    lemma_prefix_mismatch("move_kanban_card"@, "list_vault"@, 0);
    lemma_prefix_mismatch("move_kanban_card"@, "delete_vault"@, 0);
    lemma_prefix_mismatch("move_kanban_card"@, "import_vault"@, 0);
    lemma_prefix_mismatch("move_kanban_card"@, "export_vault"@, 0);
    assert("move_kanban_card"@.len() != "health_check"@.len());
    assert("move_kanban_card"@.len() != "core_status"@.len());
    assert("move_kanban_card"@.len() != "get_session"@.len());
    assert("move_kanban_card"@.len() != "logout"@.len());
    lemma_missing_char("move_kanban_card"@, "entity"@, 2);
    lemma_missing_pair("move_kanban_card"@, "member"@, 0);
    assert("move_kanban_card"@.len() != "join_entity"@.len());
    lemma_missing_char("move_kanban_card"@, "message"@, 2);
    lemma_missing_char("move_kanban_card"@, "thread"@, 0);
    lemma_missing_char("move_kanban_card"@, "reaction"@, 4);
    assert("move_kanban_card"@[0] != "get_unread_count"@[0]);
    lemma_missing_char("move_kanban_card"@, "file"@, 0);
    assert("move_kanban_card"@.len() != "get_disk_stats"@.len());
    lemma_missing_char("move_kanban_card"@, "upload"@, 0);
    assert("move_kanban_card"@.subrange(5, 11) =~= "kanban"@);
    assert(occurs_at("move_kanban_card"@, "kanban"@, 5));
}

/// The name `get_kanban_card` falls in Kanban.
proof fn lemma_tool_get_kanban_card()
    ensures
        category_of("get_kanban_card"@) == McpToolCategory::Kanban,
{
    reveal_strlit("get_kanban_card");
    reveal_strlit("authenticate");
    reveal_strlit("create_vault");
    reveal_strlit("list_vault");
    reveal_strlit("delete_vault");
    reveal_strlit("import_vault");
    reveal_strlit("export_vault");
    reveal_strlit("health_check");
    reveal_strlit("core_status");
    reveal_strlit("get_session");
    reveal_strlit("logout");
    reveal_strlit("entity");
    reveal_strlit("member");
    reveal_strlit("join_entity");
    reveal_strlit("message");
    reveal_strlit("thread");
    reveal_strlit("reaction");
    reveal_strlit("get_unread_count");
    reveal_strlit("file");
    reveal_strlit("get_disk_stats");
    reveal_strlit("upload");
    reveal_strlit("kanban");
    lemma_prefix_mismatch("get_kanban_card"@, "authenticate"@, 0);
    lemma_prefix_mismatch("get_kanban_card"@, "create_vault"@, 0);
    lemma_prefix_mismatch("get_kanban_card"@, "list_vault"@, 0);
    lemma_prefix_mismatch("get_kanban_card"@, "delete_vault"@, 0);
    lemma_prefix_mismatch("get_kanban_card"@, "import_vault"@, 0);
    lemma_prefix_mismatch("get_kanban_card"@, "export_vault"@, 0);
    assert("get_kanban_card"@.len() != "health_check"@.len());
    assert("get_kanban_card"@.len() != "core_status"@.len());
    assert("get_kanban_card"@.len() != "get_session"@.len());
    assert("get_kanban_card"@.len() != "logout"@.len());
    lemma_missing_char("get_kanban_card"@, "entity"@, 3);
    lemma_missing_char("get_kanban_card"@, "member"@, 0);
    assert("get_kanban_card"@.len() != "join_entity"@.len());
    lemma_missing_char("get_kanban_card"@, "message"@, 0);
    lemma_missing_char("get_kanban_card"@, "thread"@, 1);
    lemma_missing_char("get_kanban_card"@, "reaction"@, 5);
    assert("get_kanban_card"@.len() != "get_unread_count"@.len());
    lemma_missing_char("get_kanban_card"@, "file"@, 0);
    assert("get_kanban_card"@.len() != "get_disk_stats"@.len());
    lemma_missing_char("get_kanban_card"@, "upload"@, 0);
    assert("get_kanban_card"@.subrange(4, 10) =~= "kanban"@);
    assert(occurs_at("get_kanban_card"@, "kanban"@, 4));
}

/// The name `create_kanban_column` falls in Kanban.
proof fn lemma_tool_create_kanban_column()
    ensures
        category_of("create_kanban_column"@) == McpToolCategory::Kanban,
{
    reveal_strlit("create_kanban_column");
    reveal_strlit("authenticate");
    reveal_strlit("create_vault");
    reveal_strlit("list_vault");
    reveal_strlit("delete_vault");
    reveal_strlit("import_vault");
    reveal_strlit("export_vault");
    reveal_strlit("health_check");
    reveal_strlit("core_status");
    reveal_strlit("get_session");
    reveal_strlit("logout");
    reveal_strlit("entity");
    reveal_strlit("member");
    reveal_strlit("join_entity");
    reveal_strlit("message");
    reveal_strlit("thread");
    reveal_strlit("reaction");
    reveal_strlit("get_unread_count");
    reveal_strlit("file");
    reveal_strlit("get_disk_stats");
    reveal_strlit("upload");
    reveal_strlit("kanban");
    lemma_prefix_mismatch("create_kanban_column"@, "authenticate"@, 0);
    lemma_prefix_mismatch("create_kanban_column"@, "create_vault"@, 7);
    lemma_prefix_mismatch("create_kanban_column"@, "list_vault"@, 0);
    lemma_prefix_mismatch("create_kanban_column"@, "delete_vault"@, 0);
    lemma_prefix_mismatch("create_kanban_column"@, "import_vault"@, 0);
    lemma_prefix_mismatch("create_kanban_column"@, "export_vault"@, 0);
    assert("create_kanban_column"@.len() != "health_check"@.len());
    assert("create_kanban_column"@.len() != "core_status"@.len());
    assert("create_kanban_column"@.len() != "get_session"@.len());
    assert("create_kanban_column"@.len() != "logout"@.len());
    lemma_missing_char("create_kanban_column"@, "entity"@, 3);
    lemma_missing_pair("create_kanban_column"@, "member"@, 0);
    assert("create_kanban_column"@.len() != "join_entity"@.len());
    lemma_missing_char("create_kanban_column"@, "message"@, 2);
    lemma_missing_char("create_kanban_column"@, "thread"@, 1);
    lemma_missing_char("create_kanban_column"@, "reaction"@, 5);
    assert("create_kanban_column"@.len() != "get_unread_count"@.len());
    lemma_missing_char("create_kanban_column"@, "file"@, 0);
    assert("create_kanban_column"@.len() != "get_disk_stats"@.len());
    lemma_missing_char("create_kanban_column"@, "upload"@, 1);
    assert("create_kanban_column"@.subrange(7, 13) =~= "kanban"@);
    assert(occurs_at("create_kanban_column"@, "kanban"@, 7));
}

/// The name `list_kanban_columns` falls in Kanban.
proof fn lemma_tool_list_kanban_columns()
    ensures
        category_of("list_kanban_columns"@) == McpToolCategory::Kanban,
{
    reveal_strlit("list_kanban_columns");
    reveal_strlit("authenticate");
    reveal_strlit("create_vault");
    reveal_strlit("list_vault");
    reveal_strlit("delete_vault");
    reveal_strlit("import_vault");
    reveal_strlit("export_vault");
    reveal_strlit("health_check");
    reveal_strlit("core_status");
    reveal_strlit("get_session");
    reveal_strlit("logout");
    reveal_strlit("entity");
    reveal_strlit("member");
    reveal_strlit("join_entity");
    reveal_strlit("message");
    reveal_strlit("thread");
    reveal_strlit("reaction");
    reveal_strlit("get_unread_count");
    reveal_strlit("file");
    reveal_strlit("get_disk_stats");
    reveal_strlit("upload");
    reveal_strlit("kanban");
    lemma_prefix_mismatch("list_kanban_columns"@, "authenticate"@, 0);
    lemma_prefix_mismatch("list_kanban_columns"@, "create_vault"@, 0);
    lemma_prefix_mismatch("list_kanban_columns"@, "list_vault"@, 5);
    lemma_prefix_mismatch("list_kanban_columns"@, "delete_vault"@, 0);
    lemma_prefix_mismatch("list_kanban_columns"@, "import_vault"@, 0);
    lemma_prefix_mismatch("list_kanban_columns"@, "export_vault"@, 0);
    assert("list_kanban_columns"@.len() != "health_check"@.len());
    assert("list_kanban_columns"@.len() != "core_status"@.len());
    assert("list_kanban_columns"@.len() != "get_session"@.len());
    assert("list_kanban_columns"@.len() != "logout"@.len());
    lemma_missing_char("list_kanban_columns"@, "entity"@, 0);
    lemma_missing_char("list_kanban_columns"@, "member"@, 1);
    assert("list_kanban_columns"@.len() != "join_entity"@.len());
    lemma_missing_char("list_kanban_columns"@, "message"@, 1);
    lemma_missing_char("list_kanban_columns"@, "thread"@, 1);
    lemma_missing_char("list_kanban_columns"@, "reaction"@, 0);
    assert("list_kanban_columns"@.len() != "get_unread_count"@.len());
    lemma_missing_char("list_kanban_columns"@, "file"@, 0);
    assert("list_kanban_columns"@.len() != "get_disk_stats"@.len());
    lemma_missing_char("list_kanban_columns"@, "upload"@, 1);
    assert("list_kanban_columns"@.subrange(5, 11) =~= "kanban"@);
    assert(occurs_at("list_kanban_columns"@, "kanban"@, 5));
}

/// The name `get_kanban_column` falls in Kanban.
proof fn lemma_tool_get_kanban_column()
    ensures
        category_of("get_kanban_column"@) == McpToolCategory::Kanban,
{
    reveal_strlit("get_kanban_column");
    reveal_strlit("authenticate");
    reveal_strlit("create_vault");
    reveal_strlit("list_vault");
    reveal_strlit("delete_vault");
    reveal_strlit("import_vault");
    reveal_strlit("export_vault");
    reveal_strlit("health_check");
    reveal_strlit("core_status");
    reveal_strlit("get_session");
    reveal_strlit("logout");
    reveal_strlit("entity");
    reveal_strlit("member");
    reveal_strlit("join_entity");
    reveal_strlit("message");
    reveal_strlit("thread");
    reveal_strlit("reaction");
    reveal_strlit("get_unread_count");
    reveal_strlit("file");
    reveal_strlit("get_disk_stats");
    reveal_strlit("upload");
    reveal_strlit("kanban");
    lemma_prefix_mismatch("get_kanban_column"@, "authenticate"@, 0);
    lemma_prefix_mismatch("get_kanban_column"@, "create_vault"@, 0);
    lemma_prefix_mismatch("get_kanban_column"@, "list_vault"@, 0);
    lemma_prefix_mismatch("get_kanban_column"@, "delete_vault"@, 0);
    lemma_prefix_mismatch("get_kanban_column"@, "import_vault"@, 0);
    lemma_prefix_mismatch("get_kanban_column"@, "export_vault"@, 0);
    assert("get_kanban_column"@.len() != "health_check"@.len());
    assert("get_kanban_column"@.len() != "core_status"@.len());
    assert("get_kanban_column"@.len() != "get_session"@.len());
    assert("get_kanban_column"@.len() != "logout"@.len());
    lemma_missing_char("get_kanban_column"@, "entity"@, 3);
    lemma_missing_char("get_kanban_column"@, "member"@, 5);
    assert("get_kanban_column"@.len() != "join_entity"@.len());
    lemma_missing_char("get_kanban_column"@, "message"@, 2);
    lemma_missing_char("get_kanban_column"@, "thread"@, 1);
    lemma_missing_char("get_kanban_column"@, "reaction"@, 0);
    assert("get_kanban_column"@.len() != "get_unread_count"@.len());
    lemma_missing_char("get_kanban_column"@, "file"@, 0);
    assert("get_kanban_column"@.len() != "get_disk_stats"@.len());
    lemma_missing_char("get_kanban_column"@, "upload"@, 1);
    assert("get_kanban_column"@.subrange(4, 10) =~= "kanban"@);
    assert(occurs_at("get_kanban_column"@, "kanban"@, 4));
}

/// The name `update_kanban_column` falls in Kanban.
proof fn lemma_tool_update_kanban_column()
    ensures
        category_of("update_kanban_column"@) == McpToolCategory::Kanban,
{
    reveal_strlit("update_kanban_column");
    reveal_strlit("authenticate");
    reveal_strlit("create_vault");
    reveal_strlit("list_vault");
    reveal_strlit("delete_vault");
    reveal_strlit("import_vault");
    reveal_strlit("export_vault");
    reveal_strlit("health_check");
    reveal_strlit("core_status");
    reveal_strlit("get_session");
    reveal_strlit("logout");
    reveal_strlit("entity");
    reveal_strlit("member");
    reveal_strlit("join_entity");
    reveal_strlit("message");
    reveal_strlit("thread");
    reveal_strlit("reaction");
    reveal_strlit("get_unread_count");
    reveal_strlit("file");
    reveal_strlit("get_disk_stats");
    reveal_strlit("upload");
    reveal_strlit("kanban");
    lemma_prefix_mismatch("update_kanban_column"@, "authenticate"@, 0);
    lemma_prefix_mismatch("update_kanban_column"@, "create_vault"@, 0);
    lemma_prefix_mismatch("update_kanban_column"@, "list_vault"@, 0);
    lemma_prefix_mismatch("update_kanban_column"@, "delete_vault"@, 0);
    lemma_prefix_mismatch("update_kanban_column"@, "import_vault"@, 0);
    lemma_prefix_mismatch("update_kanban_column"@, "export_vault"@, 0);
    assert("update_kanban_column"@.len() != "health_check"@.len());
    assert("update_kanban_column"@.len() != "core_status"@.len());
    assert("update_kanban_column"@.len() != "get_session"@.len());
    assert("update_kanban_column"@.len() != "logout"@.len());
    lemma_missing_char("update_kanban_column"@, "entity"@, 3);
    lemma_missing_char("update_kanban_column"@, "member"@, 5);
    assert("update_kanban_column"@.len() != "join_entity"@.len());
    lemma_missing_char("update_kanban_column"@, "message"@, 2);
    lemma_missing_char("update_kanban_column"@, "thread"@, 1);
    lemma_missing_char("update_kanban_column"@, "reaction"@, 0);
    assert("update_kanban_column"@.len() != "get_unread_count"@.len());
    lemma_missing_char("update_kanban_column"@, "file"@, 0);
    assert("update_kanban_column"@.len() != "get_disk_stats"@.len());
    lemma_missing_pair("update_kanban_column"@, "upload"@, 1);
    assert("update_kanban_column"@.subrange(7, 13) =~= "kanban"@);
    assert(occurs_at("update_kanban_column"@, "kanban"@, 7));
}

/// The name `delete_kanban_column` falls in Kanban.
proof fn lemma_tool_delete_kanban_column()
    ensures
        category_of("delete_kanban_column"@) == McpToolCategory::Kanban,
{
    reveal_strlit("delete_kanban_column");
    reveal_strlit("authenticate");
    reveal_strlit("create_vault");
    reveal_strlit("list_vault");
    reveal_strlit("delete_vault");
    reveal_strlit("import_vault");
    reveal_strlit("export_vault");
    reveal_strlit("health_check");
    reveal_strlit("core_status");
    reveal_strlit("get_session");
    reveal_strlit("logout");
    reveal_strlit("entity");
    reveal_strlit("member");
    reveal_strlit("join_entity");
    reveal_strlit("message");
    reveal_strlit("thread");
    reveal_strlit("reaction");
    reveal_strlit("get_unread_count");
    reveal_strlit("file");
    reveal_strlit("get_disk_stats");
    reveal_strlit("upload");
    reveal_strlit("kanban");
    lemma_prefix_mismatch("delete_kanban_column"@, "authenticate"@, 0);
    lemma_prefix_mismatch("delete_kanban_column"@, "create_vault"@, 0);
    lemma_prefix_mismatch("delete_kanban_column"@, "list_vault"@, 0);
    lemma_prefix_mismatch("delete_kanban_column"@, "delete_vault"@, 7);
    lemma_prefix_mismatch("delete_kanban_column"@, "import_vault"@, 0);
    lemma_prefix_mismatch("delete_kanban_column"@, "export_vault"@, 0);
    assert("delete_kanban_column"@.len() != "health_check"@.len());
    assert("delete_kanban_column"@.len() != "core_status"@.len());
    assert("delete_kanban_column"@.len() != "get_session"@.len());
    assert("delete_kanban_column"@.len() != "logout"@.len());
    lemma_missing_char("delete_kanban_column"@, "entity"@, 3);
    lemma_missing_char("delete_kanban_column"@, "member"@, 5);
    assert("delete_kanban_column"@.len() != "join_entity"@.len());
    lemma_missing_char("delete_kanban_column"@, "message"@, 2);
    lemma_missing_char("delete_kanban_column"@, "thread"@, 1);
    lemma_missing_char("delete_kanban_column"@, "reaction"@, 0);
    assert("delete_kanban_column"@.len() != "get_unread_count"@.len());
    lemma_missing_char("delete_kanban_column"@, "file"@, 0);
    assert("delete_kanban_column"@.len() != "get_disk_stats"@.len());
    lemma_missing_char("delete_kanban_column"@, "upload"@, 1);
    assert("delete_kanban_column"@.subrange(7, 13) =~= "kanban"@);
    assert(occurs_at("delete_kanban_column"@, "kanban"@, 7));
}

/// The name `move_kanban_column` falls in Kanban.
proof fn lemma_tool_move_kanban_column()
    ensures
        category_of("move_kanban_column"@) == McpToolCategory::Kanban,
{
    reveal_strlit("move_kanban_column");
    reveal_strlit("authenticate");
    reveal_strlit("create_vault");
    reveal_strlit("list_vault");
    reveal_strlit("delete_vault");
    reveal_strlit("import_vault");
    reveal_strlit("export_vault");
    reveal_strlit("health_check");
    reveal_strlit("core_status");
    reveal_strlit("get_session");
    reveal_strlit("logout");
    reveal_strlit("entity");
    reveal_strlit("member");
    reveal_strlit("join_entity");
    reveal_strlit("message");
    reveal_strlit("thread");
    reveal_strlit("reaction");
    reveal_strlit("get_unread_count");
    reveal_strlit("file");
    reveal_strlit("get_disk_stats");
    reveal_strlit("upload");
    reveal_strlit("kanban");
    lemma_prefix_mismatch("move_kanban_column"@, "authenticate"@, 0);
    lemma_prefix_mismatch("move_kanban_column"@, "create_vault"@, 0);
    lemma_prefix_mismatch("move_kanban_column"@, "list_vault"@, 0);
    lemma_prefix_mismatch("move_kanban_column"@, "delete_vault"@, 0);
    lemma_prefix_mismatch("move_kanban_column"@, "import_vault"@, 0);
    lemma_prefix_mismatch("move_kanban_column"@, "export_vault"@, 0);
    assert("move_kanban_column"@.len() != "health_check"@.len());
    assert("move_kanban_column"@.len() != "core_status"@.len());
    assert("move_kanban_column"@.len() != "get_session"@.len());
    assert("move_kanban_column"@.len() != "logout"@.len());
    lemma_missing_char("move_kanban_column"@, "entity"@, 2);
    lemma_missing_char("move_kanban_column"@, "member"@, 5);
    assert("move_kanban_column"@.len() != "join_entity"@.len());
    lemma_missing_char("move_kanban_column"@, "message"@, 2);
    lemma_missing_char("move_kanban_column"@, "thread"@, 0);
    lemma_missing_char("move_kanban_column"@, "reaction"@, 0);
    assert("move_kanban_column"@.len() != "get_unread_count"@.len());
    lemma_missing_char("move_kanban_column"@, "file"@, 0);
    assert("move_kanban_column"@.len() != "get_disk_stats"@.len());
    lemma_missing_char("move_kanban_column"@, "upload"@, 1);
    assert("move_kanban_column"@.subrange(5, 11) =~= "kanban"@);
    assert(occurs_at("move_kanban_column"@, "kanban"@, 5));
}

/// The name `change_card_state` falls in Kanban.
proof fn lemma_tool_change_card_state()
    ensures
        category_of("change_card_state"@) == McpToolCategory::Kanban,
{
    reveal_strlit("change_card_state");
    reveal_strlit("authenticate");
    reveal_strlit("create_vault");
    reveal_strlit("list_vault");
    reveal_strlit("delete_vault");
    reveal_strlit("import_vault");
    reveal_strlit("export_vault");
    reveal_strlit("health_check");
    reveal_strlit("core_status");
    reveal_strlit("get_session");
    reveal_strlit("logout");
    reveal_strlit("entity");
    reveal_strlit("member");
    reveal_strlit("join_entity");
    reveal_strlit("message");
    reveal_strlit("thread");
    reveal_strlit("reaction");
    reveal_strlit("get_unread_count");
    reveal_strlit("file");
    reveal_strlit("get_disk_stats");
    reveal_strlit("upload");
    reveal_strlit("card");
    lemma_prefix_mismatch("change_card_state"@, "authenticate"@, 0);
    lemma_prefix_mismatch("change_card_state"@, "create_vault"@, 1);
    lemma_prefix_mismatch("change_card_state"@, "list_vault"@, 0);
    lemma_prefix_mismatch("change_card_state"@, "delete_vault"@, 0);
    lemma_prefix_mismatch("change_card_state"@, "import_vault"@, 0);
    lemma_prefix_mismatch("change_card_state"@, "export_vault"@, 0);
    assert("change_card_state"@.len() != "health_check"@.len());
    assert("change_card_state"@.len() != "core_status"@.len());
    assert("change_card_state"@.len() != "get_session"@.len());
    assert("change_card_state"@.len() != "logout"@.len());
    lemma_missing_char("change_card_state"@, "entity"@, 3);
    lemma_missing_char("change_card_state"@, "member"@, 0);
    assert("change_card_state"@.len() != "join_entity"@.len());
    lemma_missing_char("change_card_state"@, "message"@, 0);
    lemma_missing_pair("change_card_state"@, "thread"@, 0);
    lemma_missing_char("change_card_state"@, "reaction"@, 5);
    assert("change_card_state"@.len() != "get_unread_count"@.len());
    lemma_missing_char("change_card_state"@, "file"@, 0);
    assert("change_card_state"@.len() != "get_disk_stats"@.len());
    lemma_missing_char("change_card_state"@, "upload"@, 0);
    assert("change_card_state"@.subrange(7, 11) =~= "card"@);
    assert(occurs_at("change_card_state"@, "card"@, 7));
}

/// The name `assign_user` falls in Network.
proof fn lemma_tool_assign_user()
    ensures
        category_of("assign_user"@) == McpToolCategory::Network,
{
    reveal_strlit("assign_user");
    reveal_strlit("authenticate");
    reveal_strlit("create_vault");
    reveal_strlit("list_vault");
    reveal_strlit("delete_vault");
    reveal_strlit("import_vault");
    reveal_strlit("export_vault");
    reveal_strlit("health_check");
    reveal_strlit("core_status");
    reveal_strlit("get_session");
    reveal_strlit("logout");
    reveal_strlit("entity");
    reveal_strlit("member");
    reveal_strlit("join_entity");
    reveal_strlit("message");
    reveal_strlit("thread");
    reveal_strlit("reaction");
    reveal_strlit("get_unread_count");
    reveal_strlit("file");
    reveal_strlit("get_disk_stats");
    reveal_strlit("upload");
    reveal_strlit("kanban");
    reveal_strlit("card");
    reveal_strlit("column");
    reveal_strlit("board");
    reveal_strlit("step");
    reveal_strlit("tag");
    reveal_strlit("network_");
    reveal_strlit("dht_");
    reveal_strlit("metrics");
    reveal_strlit("trust");
    reveal_strlit("placement");
    reveal_strlit("presence");
    reveal_strlit("poll");
    reveal_strlit("story");
    reveal_strlit("call");
    reveal_strlit("location");
    reveal_strlit("screen");
    reveal_strlit("presentation");
    reveal_strlit("website");
    reveal_strlit("workspace");
    lemma_prefix_mismatch("assign_user"@, "list_vault"@, 0);
    assert("assign_user"@.len() != "health_check"@.len());
    assert("assign_user"@[0] != "core_status"@[0]);
    assert("assign_user"@[0] != "get_session"@[0]);
    assert("assign_user"@.len() != "logout"@.len());
    lemma_missing_char("assign_user"@, "entity"@, 2);
    lemma_missing_char("assign_user"@, "member"@, 0);
    assert("assign_user"@[0] != "join_entity"@[0]);
    lemma_missing_char("assign_user"@, "message"@, 0);
    lemma_missing_char("assign_user"@, "thread"@, 0);
    lemma_missing_char("assign_user"@, "reaction"@, 3);
    assert("assign_user"@.len() != "get_unread_count"@.len());
    lemma_missing_char("assign_user"@, "file"@, 0);
    assert("assign_user"@.len() != "get_disk_stats"@.len());
    lemma_missing_char("assign_user"@, "upload"@, 1);
    lemma_missing_char("assign_user"@, "kanban"@, 0);
    lemma_missing_char("assign_user"@, "card"@, 0);
    lemma_missing_char("assign_user"@, "column"@, 0);
    lemma_missing_char("assign_user"@, "board"@, 0);
    lemma_missing_char("assign_user"@, "step"@, 1);
    lemma_missing_char("assign_user"@, "tag"@, 0);
    lemma_prefix_mismatch("assign_user"@, "network_"@, 0);
    lemma_prefix_mismatch("assign_user"@, "dht_"@, 0);
    lemma_missing_char("assign_user"@, "metrics"@, 0);
    lemma_missing_char("assign_user"@, "trust"@, 0);
    lemma_missing_char("assign_user"@, "placement"@, 0);
    lemma_missing_char("assign_user"@, "presence"@, 0);
    lemma_missing_char("assign_user"@, "poll"@, 0);
    lemma_missing_char("assign_user"@, "story"@, 1);
    lemma_missing_char("assign_user"@, "call"@, 0);
    lemma_missing_char("assign_user"@, "location"@, 0);
    lemma_missing_char("assign_user"@, "screen"@, 1);
    lemma_missing_char("assign_user"@, "presentation"@, 0);
    lemma_missing_char("assign_user"@, "website"@, 0);
    lemma_missing_char("assign_user"@, "workspace"@, 0);
}

/// The name `unassign_user` falls in Network.
proof fn lemma_tool_unassign_user()
    ensures
        category_of("unassign_user"@) == McpToolCategory::Network,
{
    reveal_strlit("unassign_user");
    reveal_strlit("authenticate");
    reveal_strlit("create_vault");
    reveal_strlit("list_vault");
    reveal_strlit("delete_vault");
    reveal_strlit("import_vault");
    reveal_strlit("export_vault");
    reveal_strlit("health_check");
    reveal_strlit("core_status");
    reveal_strlit("get_session");
    reveal_strlit("logout");
    reveal_strlit("entity");
    reveal_strlit("member");
    reveal_strlit("join_entity");
    reveal_strlit("message");
    reveal_strlit("thread");
    reveal_strlit("reaction");
    reveal_strlit("get_unread_count");
    reveal_strlit("file");
    reveal_strlit("get_disk_stats");
    reveal_strlit("upload");
    reveal_strlit("kanban");
    reveal_strlit("card");
    reveal_strlit("column");
    reveal_strlit("board");
    reveal_strlit("step");
    reveal_strlit("tag");
    reveal_strlit("network_");
    reveal_strlit("dht_");
    reveal_strlit("metrics");
    reveal_strlit("trust");
    reveal_strlit("placement");
    reveal_strlit("presence");
    reveal_strlit("poll");
    reveal_strlit("story");
    reveal_strlit("call");
    reveal_strlit("location");
    reveal_strlit("screen");
    reveal_strlit("presentation");
    reveal_strlit("website");
    reveal_strlit("workspace");
    lemma_prefix_mismatch("unassign_user"@, "authenticate"@, 0);
    lemma_prefix_mismatch("unassign_user"@, "create_vault"@, 0);
    lemma_prefix_mismatch("unassign_user"@, "list_vault"@, 0);
    lemma_prefix_mismatch("unassign_user"@, "delete_vault"@, 0);
    lemma_prefix_mismatch("unassign_user"@, "import_vault"@, 0);
    lemma_prefix_mismatch("unassign_user"@, "export_vault"@, 0);
    assert("unassign_user"@.len() != "health_check"@.len());
    assert("unassign_user"@.len() != "core_status"@.len());
    assert("unassign_user"@.len() != "get_session"@.len());
    assert("unassign_user"@.len() != "logout"@.len());
    lemma_missing_char("unassign_user"@, "entity"@, 2);
    lemma_missing_char("unassign_user"@, "member"@, 0);
    assert("unassign_user"@.len() != "join_entity"@.len());
    lemma_missing_char("unassign_user"@, "message"@, 0);
    lemma_missing_char("unassign_user"@, "thread"@, 0);
    lemma_missing_char("unassign_user"@, "reaction"@, 3);
    assert("unassign_user"@.len() != "get_unread_count"@.len());
    lemma_missing_char("unassign_user"@, "file"@, 0);
    assert("unassign_user"@.len() != "get_disk_stats"@.len());
    lemma_missing_char("unassign_user"@, "upload"@, 1);
    lemma_missing_char("unassign_user"@, "kanban"@, 0);
    lemma_missing_char("unassign_user"@, "card"@, 0);
    lemma_missing_char("unassign_user"@, "column"@, 0);
    lemma_missing_char("unassign_user"@, "board"@, 0);
    lemma_missing_char("unassign_user"@, "step"@, 1);
    lemma_missing_char("unassign_user"@, "tag"@, 0);
    lemma_prefix_mismatch("unassign_user"@, "network_"@, 0);
    lemma_prefix_mismatch("unassign_user"@, "dht_"@, 0);
    lemma_missing_char("unassign_user"@, "metrics"@, 0);
    lemma_missing_char("unassign_user"@, "trust"@, 0);
    lemma_missing_char("unassign_user"@, "placement"@, 0);
    lemma_missing_char("unassign_user"@, "presence"@, 0);
    lemma_missing_char("unassign_user"@, "poll"@, 0);
    lemma_missing_char("unassign_user"@, "story"@, 1);
    lemma_missing_char("unassign_user"@, "call"@, 0);
    lemma_missing_char("unassign_user"@, "location"@, 0);
    lemma_missing_char("unassign_user"@, "screen"@, 1);
    lemma_missing_char("unassign_user"@, "presentation"@, 0);
    lemma_missing_char("unassign_user"@, "website"@, 0);
    lemma_missing_char("unassign_user"@, "workspace"@, 0);
}

/// The name `create_kanban_tag` falls in Kanban.
proof fn lemma_tool_create_kanban_tag()
    ensures
        category_of("create_kanban_tag"@) == McpToolCategory::Kanban,
{
    reveal_strlit("create_kanban_tag");
    reveal_strlit("authenticate");
    reveal_strlit("create_vault");
    reveal_strlit("list_vault");
    reveal_strlit("delete_vault");
    reveal_strlit("import_vault");
    reveal_strlit("export_vault");
    reveal_strlit("health_check");
    reveal_strlit("core_status");
    reveal_strlit("get_session");
    reveal_strlit("logout");
    reveal_strlit("entity");
    reveal_strlit("member");
    reveal_strlit("join_entity");
    reveal_strlit("message");
    reveal_strlit("thread");
    reveal_strlit("reaction");
    reveal_strlit("get_unread_count");
    reveal_strlit("file");
    reveal_strlit("get_disk_stats");
    reveal_strlit("upload");
    reveal_strlit("kanban");
    lemma_prefix_mismatch("create_kanban_tag"@, "authenticate"@, 0);
    lemma_prefix_mismatch("create_kanban_tag"@, "create_vault"@, 7);
    lemma_prefix_mismatch("create_kanban_tag"@, "list_vault"@, 0);
    lemma_prefix_mismatch("create_kanban_tag"@, "delete_vault"@, 0);
    lemma_prefix_mismatch("create_kanban_tag"@, "import_vault"@, 0);
    lemma_prefix_mismatch("create_kanban_tag"@, "export_vault"@, 0);
    assert("create_kanban_tag"@.len() != "health_check"@.len());
    assert("create_kanban_tag"@.len() != "core_status"@.len());
    assert("create_kanban_tag"@.len() != "get_session"@.len());
    assert("create_kanban_tag"@.len() != "logout"@.len());
    lemma_missing_char("create_kanban_tag"@, "entity"@, 3);
    lemma_missing_char("create_kanban_tag"@, "member"@, 0);
    assert("create_kanban_tag"@.len() != "join_entity"@.len());
    lemma_missing_char("create_kanban_tag"@, "message"@, 0);
    lemma_missing_char("create_kanban_tag"@, "thread"@, 1);
    lemma_missing_char("create_kanban_tag"@, "reaction"@, 5);
    assert("create_kanban_tag"@.len() != "get_unread_count"@.len());
    lemma_missing_char("create_kanban_tag"@, "file"@, 0);
    assert("create_kanban_tag"@.len() != "get_disk_stats"@.len());
    lemma_missing_char("create_kanban_tag"@, "upload"@, 0);
    assert("create_kanban_tag"@.subrange(7, 13) =~= "kanban"@);
    assert(occurs_at("create_kanban_tag"@, "kanban"@, 7));
}

/// The name `list_kanban_tags` falls in Kanban.
proof fn lemma_tool_list_kanban_tags()
    ensures
        category_of("list_kanban_tags"@) == McpToolCategory::Kanban,
{
    reveal_strlit("list_kanban_tags");
    reveal_strlit("authenticate");
    reveal_strlit("create_vault");
    reveal_strlit("list_vault");
    reveal_strlit("delete_vault");
    reveal_strlit("import_vault");
    reveal_strlit("export_vault");
    reveal_strlit("health_check");
    reveal_strlit("core_status");
    reveal_strlit("get_session");
    reveal_strlit("logout");
    reveal_strlit("entity");
    reveal_strlit("member");
    reveal_strlit("join_entity");
    reveal_strlit("message");
    reveal_strlit("thread");
    reveal_strlit("reaction");
    reveal_strlit("get_unread_count");
    reveal_strlit("file");
    reveal_strlit("get_disk_stats");
    reveal_strlit("upload");
    reveal_strlit("kanban");
    lemma_prefix_mismatch("list_kanban_tags"@, "authenticate"@, 0);
    lemma_prefix_mismatch("list_kanban_tags"@, "create_vault"@, 0);
    lemma_prefix_mismatch("list_kanban_tags"@, "list_vault"@, 5);
    lemma_prefix_mismatch("list_kanban_tags"@, "delete_vault"@, 0);
    lemma_prefix_mismatch("list_kanban_tags"@, "import_vault"@, 0);
    lemma_prefix_mismatch("list_kanban_tags"@, "export_vault"@, 0);
    assert("list_kanban_tags"@.len() != "health_check"@.len());
    assert("list_kanban_tags"@.len() != "core_status"@.len());
    assert("list_kanban_tags"@.len() != "get_session"@.len());
    assert("list_kanban_tags"@.len() != "logout"@.len());
    lemma_missing_char("list_kanban_tags"@, "entity"@, 0);
    lemma_missing_char("list_kanban_tags"@, "member"@, 0);
    assert("list_kanban_tags"@.len() != "join_entity"@.len());
    lemma_missing_char("list_kanban_tags"@, "message"@, 0);
    lemma_missing_char("list_kanban_tags"@, "thread"@, 1);
    lemma_missing_char("list_kanban_tags"@, "reaction"@, 0);
    assert("list_kanban_tags"@[0] != "get_unread_count"@[0]);
    lemma_missing_char("list_kanban_tags"@, "file"@, 0);
    assert("list_kanban_tags"@.len() != "get_disk_stats"@.len());
    lemma_missing_char("list_kanban_tags"@, "upload"@, 0);
    assert("list_kanban_tags"@.subrange(5, 11) =~= "kanban"@);
    assert(occurs_at("list_kanban_tags"@, "kanban"@, 5));
}

/// The name `tag_card` falls in Kanban.
proof fn lemma_tool_tag_card()
    ensures
        category_of("tag_card"@) == McpToolCategory::Kanban,
{
    reveal_strlit("tag_card");
    reveal_strlit("authenticate");
    reveal_strlit("create_vault");
    reveal_strlit("list_vault");
    reveal_strlit("delete_vault");
    reveal_strlit("import_vault");
    reveal_strlit("export_vault");
    reveal_strlit("health_check");
    reveal_strlit("core_status");
    reveal_strlit("get_session");
    reveal_strlit("logout");
    reveal_strlit("entity");
    reveal_strlit("member");
    reveal_strlit("join_entity");
    reveal_strlit("message");
    reveal_strlit("thread");
    reveal_strlit("reaction");
    reveal_strlit("get_unread_count");
    reveal_strlit("file");
    reveal_strlit("get_disk_stats");
    reveal_strlit("upload");
    reveal_strlit("card");
    assert("tag_card"@.len() != "health_check"@.len());
    assert("tag_card"@.len() != "core_status"@.len());
    assert("tag_card"@.len() != "get_session"@.len());
    assert("tag_card"@.len() != "logout"@.len());
    lemma_missing_char("tag_card"@, "entity"@, 0);
    lemma_missing_char("tag_card"@, "member"@, 0);
    assert("tag_card"@.len() != "join_entity"@.len());
    lemma_missing_char("tag_card"@, "message"@, 0);
    lemma_missing_char("tag_card"@, "thread"@, 1);
    lemma_missing_char("tag_card"@, "reaction"@, 1);
    assert("tag_card"@.len() != "get_unread_count"@.len());
    lemma_missing_char("tag_card"@, "file"@, 0);
    assert("tag_card"@.len() != "get_disk_stats"@.len());
    lemma_missing_char("tag_card"@, "upload"@, 0);
    assert("tag_card"@.subrange(4, 8) =~= "card"@);
    assert(occurs_at("tag_card"@, "card"@, 4));
}

/// The name `network_start` falls in Network.
proof fn lemma_tool_network_start()
    ensures
        category_of("network_start"@) == McpToolCategory::Network,
{
    reveal_strlit("network_start");
    reveal_strlit("authenticate");
    reveal_strlit("create_vault");
    reveal_strlit("list_vault");
    reveal_strlit("delete_vault");
    reveal_strlit("import_vault");
    reveal_strlit("export_vault");
    reveal_strlit("health_check");
    reveal_strlit("core_status");
    reveal_strlit("get_session");
    reveal_strlit("logout");
    reveal_strlit("entity");
    reveal_strlit("member");
    reveal_strlit("join_entity");
    reveal_strlit("message");
    reveal_strlit("thread");
    reveal_strlit("reaction");
    reveal_strlit("get_unread_count");
    reveal_strlit("file");
    reveal_strlit("get_disk_stats");
    reveal_strlit("upload");
    reveal_strlit("kanban");
    reveal_strlit("card");
    reveal_strlit("column");
    reveal_strlit("board");
    reveal_strlit("step");
    reveal_strlit("tag");
    reveal_strlit("network_");
    lemma_prefix_mismatch("network_start"@, "authenticate"@, 0);
    lemma_prefix_mismatch("network_start"@, "create_vault"@, 0);
    lemma_prefix_mismatch("network_start"@, "list_vault"@, 0);
    lemma_prefix_mismatch("network_start"@, "delete_vault"@, 0);
    lemma_prefix_mismatch("network_start"@, "import_vault"@, 0);
    lemma_prefix_mismatch("network_start"@, "export_vault"@, 0);
    assert("network_start"@.len() != "health_check"@.len());
    assert("network_start"@.len() != "core_status"@.len());
    assert("network_start"@.len() != "get_session"@.len());
    assert("network_start"@.len() != "logout"@.len());
    lemma_missing_char("network_start"@, "entity"@, 3);
    lemma_missing_char("network_start"@, "member"@, 0);
    assert("network_start"@.len() != "join_entity"@.len());
    lemma_missing_char("network_start"@, "message"@, 0);
    lemma_missing_char("network_start"@, "thread"@, 1);
    lemma_missing_char("network_start"@, "reaction"@, 3);
    assert("network_start"@.len() != "get_unread_count"@.len());
    lemma_missing_char("network_start"@, "file"@, 0);
    assert("network_start"@.len() != "get_disk_stats"@.len());
    lemma_missing_char("network_start"@, "upload"@, 0);
    lemma_missing_char("network_start"@, "kanban"@, 3);
    lemma_missing_char("network_start"@, "card"@, 0);
    lemma_missing_char("network_start"@, "column"@, 0);
    lemma_missing_char("network_start"@, "board"@, 0);
    lemma_missing_char("network_start"@, "step"@, 3);
    lemma_missing_char("network_start"@, "tag"@, 2);
    assert("network_start"@.subrange(0, 8) =~= "network_"@);
}

/// The name `network_stop` falls in Network.
proof fn lemma_tool_network_stop()
    ensures
        category_of("network_stop"@) == McpToolCategory::Network,
{
    reveal_strlit("network_stop");
    reveal_strlit("authenticate");
    reveal_strlit("create_vault");
    reveal_strlit("list_vault");
    reveal_strlit("delete_vault");
    reveal_strlit("import_vault");
    reveal_strlit("export_vault");
    reveal_strlit("health_check");
    reveal_strlit("core_status");
    reveal_strlit("get_session");
    reveal_strlit("logout");
    reveal_strlit("entity");
    reveal_strlit("member");
    reveal_strlit("join_entity");
    reveal_strlit("message");
    reveal_strlit("thread");
    reveal_strlit("reaction");
    reveal_strlit("get_unread_count");
    reveal_strlit("file");
    reveal_strlit("get_disk_stats");
    reveal_strlit("upload");
    reveal_strlit("kanban");
    reveal_strlit("card");
    reveal_strlit("column");
    reveal_strlit("board");
    reveal_strlit("step");
    reveal_strlit("tag");
    reveal_strlit("network_");
    lemma_prefix_mismatch("network_stop"@, "authenticate"@, 0);
    lemma_prefix_mismatch("network_stop"@, "create_vault"@, 0);
    lemma_prefix_mismatch("network_stop"@, "list_vault"@, 0);
    lemma_prefix_mismatch("network_stop"@, "delete_vault"@, 0);
    lemma_prefix_mismatch("network_stop"@, "import_vault"@, 0);
    lemma_prefix_mismatch("network_stop"@, "export_vault"@, 0);
    assert("network_stop"@[0] != "health_check"@[0]);
    assert("network_stop"@.len() != "core_status"@.len());
    assert("network_stop"@.len() != "get_session"@.len());
    assert("network_stop"@.len() != "logout"@.len());
    lemma_missing_char("network_stop"@, "entity"@, 3);
    lemma_missing_char("network_stop"@, "member"@, 0);
    assert("network_stop"@.len() != "join_entity"@.len());
    lemma_missing_char("network_stop"@, "message"@, 0);
    lemma_missing_char("network_stop"@, "thread"@, 1);
    lemma_missing_char("network_stop"@, "reaction"@, 2);
    assert("network_stop"@.len() != "get_unread_count"@.len());
    lemma_missing_char("network_stop"@, "file"@, 0);
    assert("network_stop"@.len() != "get_disk_stats"@.len());
    lemma_missing_char("network_stop"@, "upload"@, 0);
    lemma_missing_char("network_stop"@, "kanban"@, 1);
    lemma_missing_char("network_stop"@, "card"@, 0);
    lemma_missing_char("network_stop"@, "column"@, 0);
    lemma_missing_char("network_stop"@, "board"@, 0);
    lemma_missing_pair("network_stop"@, "step"@, 1);
    lemma_missing_char("network_stop"@, "tag"@, 1);
    assert("network_stop"@.subrange(0, 8) =~= "network_"@);
}

/// The name `network_status` falls in Network.
proof fn lemma_tool_network_status()
    ensures
        category_of("network_status"@) == McpToolCategory::Network,
{
    reveal_strlit("network_status");
    reveal_strlit("authenticate");
    reveal_strlit("create_vault");
    reveal_strlit("list_vault");
    reveal_strlit("delete_vault");
    reveal_strlit("import_vault");
    reveal_strlit("export_vault");
    reveal_strlit("health_check");
    reveal_strlit("core_status");
    reveal_strlit("get_session");
    reveal_strlit("logout");
    reveal_strlit("entity");
    reveal_strlit("member");
    reveal_strlit("join_entity");
    reveal_strlit("message");
    reveal_strlit("thread");
    reveal_strlit("reaction");
    reveal_strlit("get_unread_count");
    reveal_strlit("file");
    reveal_strlit("get_disk_stats");
    reveal_strlit("upload");
    reveal_strlit("kanban");
    reveal_strlit("card");
    reveal_strlit("column");
    reveal_strlit("board");
    reveal_strlit("step");
    reveal_strlit("tag");
    reveal_strlit("network_");
    lemma_prefix_mismatch("network_status"@, "authenticate"@, 0);
    lemma_prefix_mismatch("network_status"@, "create_vault"@, 0);
    lemma_prefix_mismatch("network_status"@, "list_vault"@, 0);
    lemma_prefix_mismatch("network_status"@, "delete_vault"@, 0);
    lemma_prefix_mismatch("network_status"@, "import_vault"@, 0);
    lemma_prefix_mismatch("network_status"@, "export_vault"@, 0);
    assert("network_status"@.len() != "health_check"@.len());
    assert("network_status"@.len() != "core_status"@.len());
    assert("network_status"@.len() != "get_session"@.len());
    assert("network_status"@.len() != "logout"@.len());
    lemma_missing_char("network_status"@, "entity"@, 3);
    lemma_missing_char("network_status"@, "member"@, 0);
    assert("network_status"@.len() != "join_entity"@.len());
    lemma_missing_char("network_status"@, "message"@, 0);
    lemma_missing_char("network_status"@, "thread"@, 1);
    lemma_missing_char("network_status"@, "reaction"@, 3);
    assert("network_status"@.len() != "get_unread_count"@.len());
    lemma_missing_char("network_status"@, "file"@, 0);
    assert("network_status"@[0] != "get_disk_stats"@[0]);
    lemma_missing_char("network_status"@, "upload"@, 1);
    lemma_missing_char("network_status"@, "kanban"@, 3);
    lemma_missing_char("network_status"@, "card"@, 0);
    lemma_missing_char("network_status"@, "column"@, 0);
    lemma_missing_char("network_status"@, "board"@, 0);
    lemma_missing_char("network_status"@, "step"@, 3);
    lemma_missing_char("network_status"@, "tag"@, 2);
    assert("network_status"@.subrange(0, 8) =~= "network_"@);
}

/// The name `network_connect` falls in Network.
proof fn lemma_tool_network_connect()
    ensures
        category_of("network_connect"@) == McpToolCategory::Network,
{
    reveal_strlit("network_connect");
    reveal_strlit("authenticate");
    reveal_strlit("create_vault");
    reveal_strlit("list_vault");
    reveal_strlit("delete_vault");
    reveal_strlit("import_vault");
    reveal_strlit("export_vault");
    reveal_strlit("health_check");
    reveal_strlit("core_status");
    reveal_strlit("get_session");
    reveal_strlit("logout");
    reveal_strlit("entity");
    reveal_strlit("member");
    reveal_strlit("join_entity");
    reveal_strlit("message");
    reveal_strlit("thread");
    reveal_strlit("reaction");
    reveal_strlit("get_unread_count");
    reveal_strlit("file");
    reveal_strlit("get_disk_stats");
    reveal_strlit("upload");
    reveal_strlit("kanban");
    reveal_strlit("card");
    reveal_strlit("column");
    reveal_strlit("board");
    reveal_strlit("step");
    reveal_strlit("tag");
    reveal_strlit("network_");
    lemma_prefix_mismatch("network_connect"@, "authenticate"@, 0);
    lemma_prefix_mismatch("network_connect"@, "create_vault"@, 0);
    lemma_prefix_mismatch("network_connect"@, "list_vault"@, 0);
    lemma_prefix_mismatch("network_connect"@, "delete_vault"@, 0);
    lemma_prefix_mismatch("network_connect"@, "import_vault"@, 0);
    lemma_prefix_mismatch("network_connect"@, "export_vault"@, 0);
    assert("network_connect"@.len() != "health_check"@.len());
    assert("network_connect"@.len() != "core_status"@.len());
    assert("network_connect"@.len() != "get_session"@.len());
    assert("network_connect"@.len() != "logout"@.len());
    lemma_missing_char("network_connect"@, "entity"@, 3);
    lemma_missing_char("network_connect"@, "member"@, 0);
    assert("network_connect"@.len() != "join_entity"@.len());
    lemma_missing_char("network_connect"@, "message"@, 0);
    lemma_missing_char("network_connect"@, "thread"@, 1);
    lemma_missing_char("network_connect"@, "reaction"@, 2);
    assert("network_connect"@.len() != "get_unread_count"@.len());
    lemma_missing_char("network_connect"@, "file"@, 0);
    assert("network_connect"@.len() != "get_disk_stats"@.len());
    lemma_missing_char("network_connect"@, "upload"@, 0);
    lemma_missing_char("network_connect"@, "kanban"@, 1);
    lemma_missing_char("network_connect"@, "card"@, 1);
    lemma_missing_char("network_connect"@, "column"@, 2);
    lemma_missing_char("network_connect"@, "board"@, 0);
    lemma_missing_char("network_connect"@, "step"@, 0);
    lemma_missing_char("network_connect"@, "tag"@, 1);
    assert("network_connect"@.subrange(0, 8) =~= "network_"@);
}

/// The name `network_disconnect` falls in Network.
proof fn lemma_tool_network_disconnect()
    ensures
        category_of("network_disconnect"@) == McpToolCategory::Network,
{
    reveal_strlit("network_disconnect");
    reveal_strlit("authenticate");
    reveal_strlit("create_vault");
    reveal_strlit("list_vault");
    reveal_strlit("delete_vault");
    reveal_strlit("import_vault");
    reveal_strlit("export_vault");
    reveal_strlit("health_check");
    reveal_strlit("core_status");
    reveal_strlit("get_session");
    reveal_strlit("logout");
    reveal_strlit("entity");
    reveal_strlit("member");
    reveal_strlit("join_entity");
    reveal_strlit("message");
    reveal_strlit("thread");
    reveal_strlit("reaction");
    reveal_strlit("get_unread_count");
    reveal_strlit("file");
    reveal_strlit("get_disk_stats");
    reveal_strlit("upload");
    reveal_strlit("kanban");
    reveal_strlit("card");
    reveal_strlit("column");
    reveal_strlit("board");
    reveal_strlit("step");
    reveal_strlit("tag");
    reveal_strlit("network_");
    lemma_prefix_mismatch("network_disconnect"@, "authenticate"@, 0);
    lemma_prefix_mismatch("network_disconnect"@, "create_vault"@, 0);
    lemma_prefix_mismatch("network_disconnect"@, "list_vault"@, 0);
    lemma_prefix_mismatch("network_disconnect"@, "delete_vault"@, 0);
    lemma_prefix_mismatch("network_disconnect"@, "import_vault"@, 0);
    lemma_prefix_mismatch("network_disconnect"@, "export_vault"@, 0);
    assert("network_disconnect"@.len() != "health_check"@.len());
    assert("network_disconnect"@.len() != "core_status"@.len());
    assert("network_disconnect"@.len() != "get_session"@.len());
    assert("network_disconnect"@.len() != "logout"@.len());
    lemma_missing_char("network_disconnect"@, "entity"@, 5);
    lemma_missing_char("network_disconnect"@, "member"@, 0);
    assert("network_disconnect"@.len() != "join_entity"@.len());
    lemma_missing_char("network_disconnect"@, "message"@, 0);
    lemma_missing_char("network_disconnect"@, "thread"@, 1);
    lemma_missing_char("network_disconnect"@, "reaction"@, 2);
    assert("network_disconnect"@.len() != "get_unread_count"@.len());
    lemma_missing_char("network_disconnect"@, "file"@, 0);
    assert("network_disconnect"@.len() != "get_disk_stats"@.len());
    lemma_missing_char("network_disconnect"@, "upload"@, 0);
    lemma_missing_char("network_disconnect"@, "kanban"@, 1);
    lemma_missing_char("network_disconnect"@, "card"@, 1);
    lemma_missing_char("network_disconnect"@, "column"@, 2);
    lemma_missing_char("network_disconnect"@, "board"@, 0);
    lemma_missing_char("network_disconnect"@, "step"@, 3);
    lemma_missing_char("network_disconnect"@, "tag"@, 1);
    assert("network_disconnect"@.subrange(0, 8) =~= "network_"@);
}

/// The name `network_peers` falls in Network.
proof fn lemma_tool_network_peers()
    ensures
        category_of("network_peers"@) == McpToolCategory::Network,
{
    reveal_strlit("network_peers");
    reveal_strlit("authenticate");
    reveal_strlit("create_vault");
    reveal_strlit("list_vault");
    reveal_strlit("delete_vault");
    reveal_strlit("import_vault");
    reveal_strlit("export_vault");
    reveal_strlit("health_check");
    reveal_strlit("core_status");
    reveal_strlit("get_session");
    reveal_strlit("logout");
    reveal_strlit("entity");
    reveal_strlit("member");
    reveal_strlit("join_entity");
    reveal_strlit("message");
    reveal_strlit("thread");
    reveal_strlit("reaction");
    reveal_strlit("get_unread_count");
    reveal_strlit("file");
    reveal_strlit("get_disk_stats");
    reveal_strlit("upload");
    reveal_strlit("kanban");
    reveal_strlit("card");
    reveal_strlit("column");
    reveal_strlit("board");
    reveal_strlit("step");
    reveal_strlit("tag");
    reveal_strlit("network_");
    lemma_prefix_mismatch("network_peers"@, "authenticate"@, 0);
    lemma_prefix_mismatch("network_peers"@, "create_vault"@, 0);
    lemma_prefix_mismatch("network_peers"@, "list_vault"@, 0);
    lemma_prefix_mismatch("network_peers"@, "delete_vault"@, 0);
    lemma_prefix_mismatch("network_peers"@, "import_vault"@, 0);
    lemma_prefix_mismatch("network_peers"@, "export_vault"@, 0);
    assert("network_peers"@.len() != "health_check"@.len());
    assert("network_peers"@.len() != "core_status"@.len());
    assert("network_peers"@.len() != "get_session"@.len());
    assert("network_peers"@.len() != "logout"@.len());
    lemma_missing_char("network_peers"@, "entity"@, 3);
    lemma_missing_char("network_peers"@, "member"@, 0);
    assert("network_peers"@.len() != "join_entity"@.len());
    lemma_missing_char("network_peers"@, "message"@, 0);
    lemma_missing_char("network_peers"@, "thread"@, 1);
    lemma_missing_char("network_peers"@, "reaction"@, 2);
    assert("network_peers"@.len() != "get_unread_count"@.len());
    lemma_missing_char("network_peers"@, "file"@, 0);
    assert("network_peers"@.len() != "get_disk_stats"@.len());
    lemma_missing_char("network_peers"@, "upload"@, 0);
    lemma_missing_char("network_peers"@, "kanban"@, 1);
    lemma_missing_char("network_peers"@, "card"@, 0);
    lemma_missing_char("network_peers"@, "column"@, 0);
    lemma_missing_char("network_peers"@, "board"@, 0);
    lemma_missing_pair("network_peers"@, "step"@, 0);
    lemma_missing_char("network_peers"@, "tag"@, 1);
    assert("network_peers"@.subrange(0, 8) =~= "network_"@);
}

/// The name `network_request_external_address` falls in Network.
proof fn lemma_tool_network_request_external_address()
    ensures
        category_of("network_request_external_address"@) == McpToolCategory::Network,
{
    reveal_strlit("network_request_external_address");
    reveal_strlit("authenticate");
    reveal_strlit("create_vault");
    reveal_strlit("list_vault");
    reveal_strlit("delete_vault");
    reveal_strlit("import_vault");
    reveal_strlit("export_vault");
    reveal_strlit("health_check");
    reveal_strlit("core_status");
    reveal_strlit("get_session");
    reveal_strlit("logout");
    reveal_strlit("entity");
    reveal_strlit("member");
    reveal_strlit("join_entity");
    reveal_strlit("message");
    reveal_strlit("thread");
    reveal_strlit("reaction");
    reveal_strlit("get_unread_count");
    reveal_strlit("file");
    reveal_strlit("get_disk_stats");
    reveal_strlit("upload");
    reveal_strlit("kanban");
    reveal_strlit("card");
    reveal_strlit("column");
    reveal_strlit("board");
    reveal_strlit("step");
    reveal_strlit("tag");
    reveal_strlit("network_");
    lemma_prefix_mismatch("network_request_external_address"@, "authenticate"@, 0);
    lemma_prefix_mismatch("network_request_external_address"@, "create_vault"@, 0);
    lemma_prefix_mismatch("network_request_external_address"@, "list_vault"@, 0);
    lemma_prefix_mismatch("network_request_external_address"@, "delete_vault"@, 0);
    lemma_prefix_mismatch("network_request_external_address"@, "import_vault"@, 0);
    lemma_prefix_mismatch("network_request_external_address"@, "export_vault"@, 0);
    assert("network_request_external_address"@.len() != "health_check"@.len());
    assert("network_request_external_address"@.len() != "core_status"@.len());
    assert("network_request_external_address"@.len() != "get_session"@.len());
    assert("network_request_external_address"@.len() != "logout"@.len());
    lemma_missing_char("network_request_external_address"@, "entity"@, 3);
    lemma_missing_char("network_request_external_address"@, "member"@, 0);
    assert("network_request_external_address"@.len() != "join_entity"@.len());
    lemma_missing_char("network_request_external_address"@, "message"@, 0);
    lemma_missing_char("network_request_external_address"@, "thread"@, 1);
    lemma_missing_char("network_request_external_address"@, "reaction"@, 3);
    assert("network_request_external_address"@.len() != "get_unread_count"@.len());
    lemma_missing_char("network_request_external_address"@, "file"@, 0);
    assert("network_request_external_address"@.len() != "get_disk_stats"@.len());
    lemma_missing_char("network_request_external_address"@, "upload"@, 1);
    lemma_missing_char("network_request_external_address"@, "kanban"@, 3);
    lemma_missing_char("network_request_external_address"@, "card"@, 0);
    lemma_missing_char("network_request_external_address"@, "column"@, 0);
    lemma_missing_char("network_request_external_address"@, "board"@, 0);
    lemma_missing_char("network_request_external_address"@, "step"@, 3);
    lemma_missing_char("network_request_external_address"@, "tag"@, 2);
    assert("network_request_external_address"@.subrange(0, 8) =~= "network_"@);
}

/// The name `get_connection_words` falls in Network.
proof fn lemma_tool_get_connection_words()
    ensures
        category_of("get_connection_words"@) == McpToolCategory::Network,
{
    reveal_strlit("get_connection_words");
    reveal_strlit("authenticate");
    reveal_strlit("create_vault");
    reveal_strlit("list_vault");
    reveal_strlit("delete_vault");
    reveal_strlit("import_vault");
    reveal_strlit("export_vault");
    reveal_strlit("health_check");
    reveal_strlit("core_status");
    reveal_strlit("get_session");
    reveal_strlit("logout");
    reveal_strlit("entity");
    reveal_strlit("member");
    reveal_strlit("join_entity");
    reveal_strlit("message");
    reveal_strlit("thread");
    reveal_strlit("reaction");
    reveal_strlit("get_unread_count");
    reveal_strlit("file");
    reveal_strlit("get_disk_stats");
    reveal_strlit("upload");
    reveal_strlit("kanban");
    reveal_strlit("card");
    reveal_strlit("column");
    reveal_strlit("board");
    reveal_strlit("step");
    reveal_strlit("tag");
    reveal_strlit("network_");
    reveal_strlit("dht_");
    reveal_strlit("metrics");
    reveal_strlit("trust");
    reveal_strlit("placement");
    reveal_strlit("presence");
    reveal_strlit("poll");
    reveal_strlit("story");
    reveal_strlit("call");
    reveal_strlit("location");
    reveal_strlit("screen");
    reveal_strlit("presentation");
    reveal_strlit("website");
    reveal_strlit("workspace");
    lemma_prefix_mismatch("get_connection_words"@, "authenticate"@, 0);
    lemma_prefix_mismatch("get_connection_words"@, "create_vault"@, 0);
    lemma_prefix_mismatch("get_connection_words"@, "list_vault"@, 0);
    lemma_prefix_mismatch("get_connection_words"@, "delete_vault"@, 0);
    lemma_prefix_mismatch("get_connection_words"@, "import_vault"@, 0);
    lemma_prefix_mismatch("get_connection_words"@, "export_vault"@, 0);
    assert("get_connection_words"@.len() != "health_check"@.len());
    assert("get_connection_words"@.len() != "core_status"@.len());
    assert("get_connection_words"@.len() != "get_session"@.len());
    assert("get_connection_words"@.len() != "logout"@.len());
    lemma_missing_char("get_connection_words"@, "entity"@, 5);
    lemma_missing_char("get_connection_words"@, "member"@, 0);
    assert("get_connection_words"@.len() != "join_entity"@.len());
    lemma_missing_char("get_connection_words"@, "message"@, 0);
    lemma_missing_char("get_connection_words"@, "thread"@, 1);
    lemma_missing_char("get_connection_words"@, "reaction"@, 2);
    assert("get_connection_words"@.len() != "get_unread_count"@.len());
    lemma_missing_char("get_connection_words"@, "file"@, 0);
    assert("get_connection_words"@.len() != "get_disk_stats"@.len());
    lemma_missing_char("get_connection_words"@, "upload"@, 0);
    lemma_missing_char("get_connection_words"@, "kanban"@, 0);
    lemma_missing_char("get_connection_words"@, "card"@, 1);
    lemma_missing_char("get_connection_words"@, "column"@, 2);
    lemma_missing_char("get_connection_words"@, "board"@, 0);
    lemma_missing_char("get_connection_words"@, "step"@, 3);
    lemma_missing_char("get_connection_words"@, "tag"@, 1);
    lemma_prefix_mismatch("get_connection_words"@, "network_"@, 0);
    lemma_prefix_mismatch("get_connection_words"@, "dht_"@, 0);
    lemma_missing_char("get_connection_words"@, "metrics"@, 0);
    lemma_missing_char("get_connection_words"@, "trust"@, 2);
    lemma_missing_char("get_connection_words"@, "placement"@, 0);
    lemma_missing_char("get_connection_words"@, "presence"@, 0);
    lemma_missing_char("get_connection_words"@, "poll"@, 0);
    lemma_missing_char("get_connection_words"@, "story"@, 4);
    lemma_missing_char("get_connection_words"@, "call"@, 1);
    lemma_missing_char("get_connection_words"@, "location"@, 0);
    lemma_missing_pair("get_connection_words"@, "screen"@, 0);
    lemma_missing_char("get_connection_words"@, "presentation"@, 0);
    lemma_missing_char("get_connection_words"@, "website"@, 2);
    lemma_missing_char("get_connection_words"@, "workspace"@, 3);
}

/// The name `connect_by_words` falls in Network.
proof fn lemma_tool_connect_by_words()
    ensures
        category_of("connect_by_words"@) == McpToolCategory::Network,
{
    reveal_strlit("connect_by_words");
    reveal_strlit("authenticate");
    reveal_strlit("create_vault");
    reveal_strlit("list_vault");
    reveal_strlit("delete_vault");
    reveal_strlit("import_vault");
    reveal_strlit("export_vault");
    reveal_strlit("health_check");
    reveal_strlit("core_status");
    reveal_strlit("get_session");
    reveal_strlit("logout");
    reveal_strlit("entity");
    reveal_strlit("member");
    reveal_strlit("join_entity");
    reveal_strlit("message");
    reveal_strlit("thread");
    reveal_strlit("reaction");
    reveal_strlit("get_unread_count");
    reveal_strlit("file");
    reveal_strlit("get_disk_stats");
    reveal_strlit("upload");
    reveal_strlit("kanban");
    reveal_strlit("card");
    reveal_strlit("column");
    reveal_strlit("board");
    reveal_strlit("step");
    reveal_strlit("tag");
    reveal_strlit("network_");
    reveal_strlit("dht_");
    reveal_strlit("metrics");
    reveal_strlit("trust");
    reveal_strlit("placement");
    reveal_strlit("presence");
    reveal_strlit("poll");
    reveal_strlit("story");
    reveal_strlit("call");
    reveal_strlit("location");
    reveal_strlit("screen");
    reveal_strlit("presentation");
    reveal_strlit("website");
    reveal_strlit("workspace");
    lemma_prefix_mismatch("connect_by_words"@, "authenticate"@, 0);
    lemma_prefix_mismatch("connect_by_words"@, "create_vault"@, 1);
    lemma_prefix_mismatch("connect_by_words"@, "list_vault"@, 0);
    lemma_prefix_mismatch("connect_by_words"@, "delete_vault"@, 0);
    lemma_prefix_mismatch("connect_by_words"@, "import_vault"@, 0);
    lemma_prefix_mismatch("connect_by_words"@, "export_vault"@, 0);
    assert("connect_by_words"@.len() != "health_check"@.len());
    assert("connect_by_words"@.len() != "core_status"@.len());
    assert("connect_by_words"@.len() != "get_session"@.len());
    assert("connect_by_words"@.len() != "logout"@.len());
    lemma_missing_char("connect_by_words"@, "entity"@, 3);
    lemma_missing_char("connect_by_words"@, "member"@, 0);
    assert("connect_by_words"@.len() != "join_entity"@.len());
    lemma_missing_char("connect_by_words"@, "message"@, 0);
    lemma_missing_char("connect_by_words"@, "thread"@, 1);
    lemma_missing_char("connect_by_words"@, "reaction"@, 2);
    assert("connect_by_words"@[0] != "get_unread_count"@[0]);
    lemma_missing_char("connect_by_words"@, "file"@, 0);
    assert("connect_by_words"@.len() != "get_disk_stats"@.len());
    lemma_missing_char("connect_by_words"@, "upload"@, 0);
    lemma_missing_char("connect_by_words"@, "kanban"@, 0);
    lemma_missing_char("connect_by_words"@, "card"@, 1);
    lemma_missing_char("connect_by_words"@, "column"@, 2);
    lemma_missing_char("connect_by_words"@, "board"@, 2);
    lemma_missing_char("connect_by_words"@, "step"@, 3);
    lemma_missing_char("connect_by_words"@, "tag"@, 1);
    lemma_prefix_mismatch("connect_by_words"@, "network_"@, 0);
    lemma_prefix_mismatch("connect_by_words"@, "dht_"@, 0);
    lemma_missing_char("connect_by_words"@, "metrics"@, 0);
    lemma_missing_char("connect_by_words"@, "trust"@, 2);
    lemma_missing_char("connect_by_words"@, "placement"@, 0);
    lemma_missing_char("connect_by_words"@, "presence"@, 0);
    lemma_missing_char("connect_by_words"@, "poll"@, 0);
    lemma_missing_pair("connect_by_words"@, "story"@, 0);
    lemma_missing_char("connect_by_words"@, "call"@, 1);
    lemma_missing_char("connect_by_words"@, "location"@, 0);
    lemma_missing_pair("connect_by_words"@, "screen"@, 0);
    lemma_missing_char("connect_by_words"@, "presentation"@, 0);
    lemma_missing_char("connect_by_words"@, "website"@, 4);
    lemma_missing_char("connect_by_words"@, "workspace"@, 3);
}

/// The name `announce_presence` falls in Network.
proof fn lemma_tool_announce_presence()
    ensures
        category_of("announce_presence"@) == McpToolCategory::Network,
{
    reveal_strlit("announce_presence");
    reveal_strlit("authenticate");
    reveal_strlit("create_vault");
    reveal_strlit("list_vault");
    reveal_strlit("delete_vault");
    reveal_strlit("import_vault");
    reveal_strlit("export_vault");
    reveal_strlit("health_check");
    reveal_strlit("core_status");
    reveal_strlit("get_session");
    reveal_strlit("logout");
    reveal_strlit("entity");
    reveal_strlit("member");
    reveal_strlit("join_entity");
    reveal_strlit("message");
    reveal_strlit("thread");
    reveal_strlit("reaction");
    reveal_strlit("get_unread_count");
    reveal_strlit("file");
    reveal_strlit("get_disk_stats");
    reveal_strlit("upload");
    reveal_strlit("kanban");
    reveal_strlit("card");
    reveal_strlit("column");
    reveal_strlit("board");
    reveal_strlit("step");
    reveal_strlit("tag");
    reveal_strlit("presence");
    lemma_prefix_mismatch("announce_presence"@, "authenticate"@, 1);
    lemma_prefix_mismatch("announce_presence"@, "create_vault"@, 0);
    lemma_prefix_mismatch("announce_presence"@, "list_vault"@, 0);
    lemma_prefix_mismatch("announce_presence"@, "delete_vault"@, 0);
    lemma_prefix_mismatch("announce_presence"@, "import_vault"@, 0);
    lemma_prefix_mismatch("announce_presence"@, "export_vault"@, 0);
    assert("announce_presence"@.len() != "health_check"@.len());
    assert("announce_presence"@.len() != "core_status"@.len());
    assert("announce_presence"@.len() != "get_session"@.len());
    assert("announce_presence"@.len() != "logout"@.len());
    lemma_missing_char("announce_presence"@, "entity"@, 2);
    lemma_missing_char("announce_presence"@, "member"@, 0);
    assert("announce_presence"@.len() != "join_entity"@.len());
    lemma_missing_char("announce_presence"@, "message"@, 0);
    lemma_missing_char("announce_presence"@, "thread"@, 0);
    lemma_missing_char("announce_presence"@, "reaction"@, 4);
    assert("announce_presence"@.len() != "get_unread_count"@.len());
    lemma_missing_char("announce_presence"@, "file"@, 0);
    assert("announce_presence"@.len() != "get_disk_stats"@.len());
    lemma_missing_char("announce_presence"@, "upload"@, 2);
    lemma_missing_char("announce_presence"@, "kanban"@, 0);
    lemma_missing_char("announce_presence"@, "card"@, 3);
    lemma_missing_char("announce_presence"@, "column"@, 2);
    lemma_missing_char("announce_presence"@, "board"@, 0);
    lemma_missing_char("announce_presence"@, "step"@, 1);
    lemma_missing_char("announce_presence"@, "tag"@, 0);
    assert("announce_presence"@.subrange(9, 17) =~= "presence"@);
    assert(occurs_at("announce_presence"@, "presence"@, 9));
}

/// The name `query_presence` falls in Network.
proof fn lemma_tool_query_presence()
    ensures
        category_of("query_presence"@) == McpToolCategory::Network,
{
    reveal_strlit("query_presence");
    reveal_strlit("authenticate");
    reveal_strlit("create_vault");
    reveal_strlit("list_vault");
    reveal_strlit("delete_vault");
    reveal_strlit("import_vault");
    reveal_strlit("export_vault");
    reveal_strlit("health_check");
    reveal_strlit("core_status");
    reveal_strlit("get_session");
    reveal_strlit("logout");
    reveal_strlit("entity");
    reveal_strlit("member");
    reveal_strlit("join_entity");
    reveal_strlit("message");
    reveal_strlit("thread");
    reveal_strlit("reaction");
    reveal_strlit("get_unread_count");
    reveal_strlit("file");
    reveal_strlit("get_disk_stats");
    reveal_strlit("upload");
    reveal_strlit("kanban");
    reveal_strlit("card");
    reveal_strlit("column");
    reveal_strlit("board");
    reveal_strlit("step");
    reveal_strlit("tag");
    reveal_strlit("presence");
    lemma_prefix_mismatch("query_presence"@, "authenticate"@, 0);
    lemma_prefix_mismatch("query_presence"@, "create_vault"@, 0);
    lemma_prefix_mismatch("query_presence"@, "list_vault"@, 0);
    lemma_prefix_mismatch("query_presence"@, "delete_vault"@, 0);
    lemma_prefix_mismatch("query_presence"@, "import_vault"@, 0);
    lemma_prefix_mismatch("query_presence"@, "export_vault"@, 0);
    assert("query_presence"@.len() != "health_check"@.len());
    assert("query_presence"@.len() != "core_status"@.len());
    assert("query_presence"@.len() != "get_session"@.len());
    assert("query_presence"@.len() != "logout"@.len());
    lemma_missing_char("query_presence"@, "entity"@, 2);
    lemma_missing_char("query_presence"@, "member"@, 0);
    assert("query_presence"@.len() != "join_entity"@.len());
    lemma_missing_char("query_presence"@, "message"@, 0);
    lemma_missing_char("query_presence"@, "thread"@, 0);
    lemma_missing_char("query_presence"@, "reaction"@, 2);
    assert("query_presence"@.len() != "get_unread_count"@.len());
    lemma_missing_char("query_presence"@, "file"@, 0);
    assert("query_presence"@[0] != "get_disk_stats"@[0]);
    lemma_missing_char("query_presence"@, "upload"@, 2);
    lemma_missing_char("query_presence"@, "kanban"@, 0);
    lemma_missing_char("query_presence"@, "card"@, 1);
    lemma_missing_char("query_presence"@, "column"@, 1);
    lemma_missing_char("query_presence"@, "board"@, 0);
    lemma_missing_char("query_presence"@, "step"@, 1);
    lemma_missing_char("query_presence"@, "tag"@, 0);
    assert("query_presence"@.subrange(6, 14) =~= "presence"@);
    assert(occurs_at("query_presence"@, "presence"@, 6));
}

/// The name `get_our_presence` falls in Network.
proof fn lemma_tool_get_our_presence()
    ensures
        category_of("get_our_presence"@) == McpToolCategory::Network,
{
    reveal_strlit("get_our_presence");
    reveal_strlit("authenticate");
    reveal_strlit("create_vault");
    reveal_strlit("list_vault");
    reveal_strlit("delete_vault");
    reveal_strlit("import_vault");
    reveal_strlit("export_vault");
    reveal_strlit("health_check");
    reveal_strlit("core_status");
    reveal_strlit("get_session");
    reveal_strlit("logout");
    reveal_strlit("entity");
    reveal_strlit("member");
    reveal_strlit("join_entity");
    reveal_strlit("message");
    reveal_strlit("thread");
    reveal_strlit("reaction");
    reveal_strlit("get_unread_count");
    reveal_strlit("file");
    reveal_strlit("get_disk_stats");
    reveal_strlit("upload");
    reveal_strlit("kanban");
    reveal_strlit("card");
    reveal_strlit("column");
    reveal_strlit("board");
    reveal_strlit("step");
    reveal_strlit("tag");
    reveal_strlit("presence");
    lemma_prefix_mismatch("get_our_presence"@, "authenticate"@, 0);
    lemma_prefix_mismatch("get_our_presence"@, "create_vault"@, 0);
    lemma_prefix_mismatch("get_our_presence"@, "list_vault"@, 0);
    lemma_prefix_mismatch("get_our_presence"@, "delete_vault"@, 0);
    lemma_prefix_mismatch("get_our_presence"@, "import_vault"@, 0);
    lemma_prefix_mismatch("get_our_presence"@, "export_vault"@, 0);
    assert("get_our_presence"@.len() != "health_check"@.len());
    assert("get_our_presence"@.len() != "core_status"@.len());
    assert("get_our_presence"@.len() != "get_session"@.len());
    assert("get_our_presence"@.len() != "logout"@.len());
    lemma_missing_char("get_our_presence"@, "entity"@, 3);
    lemma_missing_char("get_our_presence"@, "member"@, 0);
    assert("get_our_presence"@.len() != "join_entity"@.len());
    lemma_missing_char("get_our_presence"@, "message"@, 0);
    lemma_missing_char("get_our_presence"@, "thread"@, 1);
    lemma_missing_char("get_our_presence"@, "reaction"@, 2);
    assert("get_our_presence"@[4] != "get_unread_count"@[4]);
    lemma_missing_char("get_our_presence"@, "file"@, 0);
    assert("get_our_presence"@.len() != "get_disk_stats"@.len());
    lemma_missing_char("get_our_presence"@, "upload"@, 2);
    lemma_missing_char("get_our_presence"@, "kanban"@, 0);
    lemma_missing_char("get_our_presence"@, "card"@, 1);
    lemma_missing_char("get_our_presence"@, "column"@, 2);
    lemma_missing_char("get_our_presence"@, "board"@, 0);
    lemma_missing_pair("get_our_presence"@, "step"@, 0);
    lemma_missing_char("get_our_presence"@, "tag"@, 1);
    assert("get_our_presence"@.subrange(8, 16) =~= "presence"@);
    assert(occurs_at("get_our_presence"@, "presence"@, 8));
}

/// The name `get_cached_presence` falls in Network.
proof fn lemma_tool_get_cached_presence()
    ensures
        category_of("get_cached_presence"@) == McpToolCategory::Network,
{
    reveal_strlit("get_cached_presence");
    reveal_strlit("authenticate");
    reveal_strlit("create_vault");
    reveal_strlit("list_vault");
    reveal_strlit("delete_vault");
    reveal_strlit("import_vault");
    reveal_strlit("export_vault");
    reveal_strlit("health_check");
    reveal_strlit("core_status");
    reveal_strlit("get_session");
    reveal_strlit("logout");
    reveal_strlit("entity");
    reveal_strlit("member");
    reveal_strlit("join_entity");
    reveal_strlit("message");
    reveal_strlit("thread");
    reveal_strlit("reaction");
    reveal_strlit("get_unread_count");
    reveal_strlit("file");
    reveal_strlit("get_disk_stats");
    reveal_strlit("upload");
    reveal_strlit("kanban");
    reveal_strlit("card");
    reveal_strlit("column");
    reveal_strlit("board");
    reveal_strlit("step");
    reveal_strlit("tag");
    reveal_strlit("presence");
    lemma_prefix_mismatch("get_cached_presence"@, "authenticate"@, 0);
    lemma_prefix_mismatch("get_cached_presence"@, "create_vault"@, 0);
    lemma_prefix_mismatch("get_cached_presence"@, "list_vault"@, 0);
    lemma_prefix_mismatch("get_cached_presence"@, "delete_vault"@, 0);
    lemma_prefix_mismatch("get_cached_presence"@, "import_vault"@, 0);
    lemma_prefix_mismatch("get_cached_presence"@, "export_vault"@, 0);
    assert("get_cached_presence"@.len() != "health_check"@.len());
    assert("get_cached_presence"@.len() != "core_status"@.len());
    assert("get_cached_presence"@.len() != "get_session"@.len());
    assert("get_cached_presence"@.len() != "logout"@.len());
    lemma_missing_char("get_cached_presence"@, "entity"@, 3);
    lemma_missing_char("get_cached_presence"@, "member"@, 0);
    assert("get_cached_presence"@.len() != "join_entity"@.len());
    lemma_missing_char("get_cached_presence"@, "message"@, 0);
    lemma_missing_pair("get_cached_presence"@, "thread"@, 0);
    lemma_missing_char("get_cached_presence"@, "reaction"@, 5);
    assert("get_cached_presence"@.len() != "get_unread_count"@.len());
    lemma_missing_char("get_cached_presence"@, "file"@, 0);
    assert("get_cached_presence"@.len() != "get_disk_stats"@.len());
    lemma_missing_char("get_cached_presence"@, "upload"@, 0);
    lemma_missing_char("get_cached_presence"@, "kanban"@, 0);
    lemma_missing_pair("get_cached_presence"@, "card"@, 1);
    lemma_missing_char("get_cached_presence"@, "column"@, 1);
    lemma_missing_char("get_cached_presence"@, "board"@, 0);
    lemma_missing_pair("get_cached_presence"@, "step"@, 0);
    lemma_missing_pair("get_cached_presence"@, "tag"@, 0);
    assert("get_cached_presence"@.subrange(11, 19) =~= "presence"@);
    assert(occurs_at("get_cached_presence"@, "presence"@, 11));
}

/// The name `dht_start` falls in Network.
proof fn lemma_tool_dht_start()
    ensures
        category_of("dht_start"@) == McpToolCategory::Network,
{
    reveal_strlit("dht_start");
    reveal_strlit("authenticate");
    reveal_strlit("create_vault");
    reveal_strlit("list_vault");
    reveal_strlit("delete_vault");
    reveal_strlit("import_vault");
    reveal_strlit("export_vault");
    reveal_strlit("health_check");
    reveal_strlit("core_status");
    reveal_strlit("get_session");
    reveal_strlit("logout");
    reveal_strlit("entity");
    reveal_strlit("member");
    reveal_strlit("join_entity");
    reveal_strlit("message");
    reveal_strlit("thread");
    reveal_strlit("reaction");
    reveal_strlit("get_unread_count");
    reveal_strlit("file");
    reveal_strlit("get_disk_stats");
    reveal_strlit("upload");
    reveal_strlit("kanban");
    reveal_strlit("card");
    reveal_strlit("column");
    reveal_strlit("board");
    reveal_strlit("step");
    reveal_strlit("tag");
    reveal_strlit("dht_");
    assert("dht_start"@.len() != "health_check"@.len());
    assert("dht_start"@.len() != "core_status"@.len());
    assert("dht_start"@.len() != "get_session"@.len());
    assert("dht_start"@.len() != "logout"@.len());
    lemma_missing_char("dht_start"@, "entity"@, 0);
    lemma_missing_char("dht_start"@, "member"@, 0);
    assert("dht_start"@.len() != "join_entity"@.len());
    lemma_missing_char("dht_start"@, "message"@, 0);
    lemma_missing_char("dht_start"@, "thread"@, 3);
    lemma_missing_char("dht_start"@, "reaction"@, 1);
    assert("dht_start"@.len() != "get_unread_count"@.len());
    lemma_missing_char("dht_start"@, "file"@, 0);
    assert("dht_start"@.len() != "get_disk_stats"@.len());
    lemma_missing_char("dht_start"@, "upload"@, 0);
    lemma_missing_char("dht_start"@, "kanban"@, 0);
    lemma_missing_char("dht_start"@, "card"@, 0);
    lemma_missing_char("dht_start"@, "column"@, 0);
    lemma_missing_char("dht_start"@, "board"@, 0);
    lemma_missing_char("dht_start"@, "step"@, 2);
    lemma_missing_char("dht_start"@, "tag"@, 2);
    assert("dht_start"@.subrange(0, 4) =~= "dht_"@);
}

/// The name `dht_stop` falls in Network.
proof fn lemma_tool_dht_stop()
    ensures
        category_of("dht_stop"@) == McpToolCategory::Network,
{
    reveal_strlit("dht_stop");
    reveal_strlit("authenticate");
    reveal_strlit("create_vault");
    reveal_strlit("list_vault");
    reveal_strlit("delete_vault");
    reveal_strlit("import_vault");
    reveal_strlit("export_vault");
    reveal_strlit("health_check");
    reveal_strlit("core_status");
    reveal_strlit("get_session");
    reveal_strlit("logout");
    reveal_strlit("entity");
    reveal_strlit("member");
    reveal_strlit("join_entity");
    reveal_strlit("message");
    reveal_strlit("thread");
    reveal_strlit("reaction");
    reveal_strlit("get_unread_count");
    reveal_strlit("file");
    reveal_strlit("get_disk_stats");
    reveal_strlit("upload");
    reveal_strlit("kanban");
    reveal_strlit("card");
    reveal_strlit("column");
    reveal_strlit("board");
    reveal_strlit("step");
    reveal_strlit("tag");
    reveal_strlit("dht_");
    assert("dht_stop"@.len() != "health_check"@.len());
    assert("dht_stop"@.len() != "core_status"@.len());
    assert("dht_stop"@.len() != "get_session"@.len());
    assert("dht_stop"@.len() != "logout"@.len());
    lemma_missing_char("dht_stop"@, "entity"@, 0);
    lemma_missing_char("dht_stop"@, "member"@, 0);
    assert("dht_stop"@.len() != "join_entity"@.len());
    lemma_missing_char("dht_stop"@, "message"@, 0);
    lemma_missing_char("dht_stop"@, "thread"@, 2);
    lemma_missing_char("dht_stop"@, "reaction"@, 0);
    assert("dht_stop"@.len() != "get_unread_count"@.len());
    lemma_missing_char("dht_stop"@, "file"@, 0);
    assert("dht_stop"@.len() != "get_disk_stats"@.len());
    lemma_missing_char("dht_stop"@, "upload"@, 0);
    lemma_missing_char("dht_stop"@, "kanban"@, 0);
    lemma_missing_char("dht_stop"@, "card"@, 0);
    lemma_missing_char("dht_stop"@, "column"@, 0);
    lemma_missing_char("dht_stop"@, "board"@, 0);
    lemma_missing_char("dht_stop"@, "step"@, 2);
    lemma_missing_char("dht_stop"@, "tag"@, 1);
    assert("dht_stop"@.subrange(0, 4) =~= "dht_"@);
}

/// The name `dht_status` falls in Network.
proof fn lemma_tool_dht_status()
    ensures
        category_of("dht_status"@) == McpToolCategory::Network,
{
    reveal_strlit("dht_status");
    reveal_strlit("authenticate");
    reveal_strlit("create_vault");
    reveal_strlit("list_vault");
    reveal_strlit("delete_vault");
    reveal_strlit("import_vault");
    reveal_strlit("export_vault");
    reveal_strlit("health_check");
    reveal_strlit("core_status");
    reveal_strlit("get_session");
    reveal_strlit("logout");
    reveal_strlit("entity");
    reveal_strlit("member");
    reveal_strlit("join_entity");
    reveal_strlit("message");
    reveal_strlit("thread");
    reveal_strlit("reaction");
    reveal_strlit("get_unread_count");
    reveal_strlit("file");
    reveal_strlit("get_disk_stats");
    reveal_strlit("upload");
    reveal_strlit("kanban");
    reveal_strlit("card");
    reveal_strlit("column");
    reveal_strlit("board");
    reveal_strlit("step");
    reveal_strlit("tag");
    reveal_strlit("dht_");
    lemma_prefix_mismatch("dht_status"@, "list_vault"@, 0);
    assert("dht_status"@.len() != "health_check"@.len());
    assert("dht_status"@.len() != "core_status"@.len());
    assert("dht_status"@.len() != "get_session"@.len());
    assert("dht_status"@.len() != "logout"@.len());
    lemma_missing_char("dht_status"@, "entity"@, 0);
    lemma_missing_char("dht_status"@, "member"@, 0);
    assert("dht_status"@.len() != "join_entity"@.len());
    lemma_missing_char("dht_status"@, "message"@, 0);
    lemma_missing_char("dht_status"@, "thread"@, 2);
    lemma_missing_char("dht_status"@, "reaction"@, 0);
    assert("dht_status"@.len() != "get_unread_count"@.len());
    lemma_missing_char("dht_status"@, "file"@, 0);
    assert("dht_status"@.len() != "get_disk_stats"@.len());
    lemma_missing_char("dht_status"@, "upload"@, 1);
    lemma_missing_char("dht_status"@, "kanban"@, 0);
    lemma_missing_char("dht_status"@, "card"@, 0);
    lemma_missing_char("dht_status"@, "column"@, 0);
    lemma_missing_char("dht_status"@, "board"@, 0);
    lemma_missing_char("dht_status"@, "step"@, 2);
    lemma_missing_char("dht_status"@, "tag"@, 2);
    assert("dht_status"@.subrange(0, 4) =~= "dht_"@);
}

/// The name `dht_store` falls in Network.
proof fn lemma_tool_dht_store()
    ensures
        category_of("dht_store"@) == McpToolCategory::Network,
{
    reveal_strlit("dht_store");
    reveal_strlit("authenticate");
    reveal_strlit("create_vault");
    reveal_strlit("list_vault");
    reveal_strlit("delete_vault");
    reveal_strlit("import_vault");
    reveal_strlit("export_vault");
    reveal_strlit("health_check");
    reveal_strlit("core_status");
    reveal_strlit("get_session");
    reveal_strlit("logout");
    reveal_strlit("entity");
    reveal_strlit("member");
    reveal_strlit("join_entity");
    reveal_strlit("message");
    reveal_strlit("thread");
    reveal_strlit("reaction");
    reveal_strlit("get_unread_count");
    reveal_strlit("file");
    reveal_strlit("get_disk_stats");
    reveal_strlit("upload");
    reveal_strlit("kanban");
    reveal_strlit("card");
    reveal_strlit("column");
    reveal_strlit("board");
    reveal_strlit("step");
    reveal_strlit("tag");
    reveal_strlit("dht_");
    assert("dht_store"@.len() != "health_check"@.len());
    assert("dht_store"@.len() != "core_status"@.len());
    assert("dht_store"@.len() != "get_session"@.len());
    assert("dht_store"@.len() != "logout"@.len());
    lemma_missing_char("dht_store"@, "entity"@, 1);
    lemma_missing_char("dht_store"@, "member"@, 0);
    assert("dht_store"@.len() != "join_entity"@.len());
    lemma_missing_char("dht_store"@, "message"@, 0);
    lemma_missing_char("dht_store"@, "thread"@, 4);
    lemma_missing_char("dht_store"@, "reaction"@, 2);
    assert("dht_store"@.len() != "get_unread_count"@.len());
    lemma_missing_char("dht_store"@, "file"@, 0);
    assert("dht_store"@.len() != "get_disk_stats"@.len());
    lemma_missing_char("dht_store"@, "upload"@, 0);
    lemma_missing_char("dht_store"@, "kanban"@, 0);
    lemma_missing_char("dht_store"@, "card"@, 0);
    lemma_missing_char("dht_store"@, "column"@, 0);
    lemma_missing_char("dht_store"@, "board"@, 0);
    lemma_missing_char("dht_store"@, "step"@, 3);
    lemma_missing_char("dht_store"@, "tag"@, 1);
    assert("dht_store"@.subrange(0, 4) =~= "dht_"@);
}

/// The name `dht_retrieve` falls in Network.
proof fn lemma_tool_dht_retrieve()
    ensures
        category_of("dht_retrieve"@) == McpToolCategory::Network,
{
    reveal_strlit("dht_retrieve");
    reveal_strlit("authenticate");
    reveal_strlit("create_vault");
    reveal_strlit("list_vault");
    reveal_strlit("delete_vault");
    reveal_strlit("import_vault");
    reveal_strlit("export_vault");
    reveal_strlit("health_check");
    reveal_strlit("core_status");
    reveal_strlit("get_session");
    reveal_strlit("logout");
    reveal_strlit("entity");
    reveal_strlit("member");
    reveal_strlit("join_entity");
    reveal_strlit("message");
    reveal_strlit("thread");
    reveal_strlit("reaction");
    reveal_strlit("get_unread_count");
    reveal_strlit("file");
    reveal_strlit("get_disk_stats");
    reveal_strlit("upload");
    reveal_strlit("kanban");
    reveal_strlit("card");
    reveal_strlit("column");
    reveal_strlit("board");
    reveal_strlit("step");
    reveal_strlit("tag");
    reveal_strlit("dht_");
    lemma_prefix_mismatch("dht_retrieve"@, "authenticate"@, 0);
    lemma_prefix_mismatch("dht_retrieve"@, "create_vault"@, 0);
    lemma_prefix_mismatch("dht_retrieve"@, "list_vault"@, 0);
    lemma_prefix_mismatch("dht_retrieve"@, "delete_vault"@, 1);
    lemma_prefix_mismatch("dht_retrieve"@, "import_vault"@, 0);
    lemma_prefix_mismatch("dht_retrieve"@, "export_vault"@, 0);
    assert("dht_retrieve"@[0] != "health_check"@[0]);
    assert("dht_retrieve"@.len() != "core_status"@.len());
    assert("dht_retrieve"@.len() != "get_session"@.len());
    assert("dht_retrieve"@.len() != "logout"@.len());
    lemma_missing_char("dht_retrieve"@, "entity"@, 1);
    lemma_missing_char("dht_retrieve"@, "member"@, 0);
    assert("dht_retrieve"@.len() != "join_entity"@.len());
    lemma_missing_char("dht_retrieve"@, "message"@, 0);
    lemma_missing_char("dht_retrieve"@, "thread"@, 4);
    lemma_missing_char("dht_retrieve"@, "reaction"@, 2);
    assert("dht_retrieve"@.len() != "get_unread_count"@.len());
    lemma_missing_char("dht_retrieve"@, "file"@, 0);
    assert("dht_retrieve"@.len() != "get_disk_stats"@.len());
    lemma_missing_char("dht_retrieve"@, "upload"@, 0);
    lemma_missing_char("dht_retrieve"@, "kanban"@, 0);
    lemma_missing_char("dht_retrieve"@, "card"@, 0);
    lemma_missing_char("dht_retrieve"@, "column"@, 0);
    lemma_missing_char("dht_retrieve"@, "board"@, 0);
    lemma_missing_char("dht_retrieve"@, "step"@, 0);
    lemma_missing_char("dht_retrieve"@, "tag"@, 1);
    assert("dht_retrieve"@.subrange(0, 4) =~= "dht_"@);
}

/// The name `dht_exists` falls in Network.
proof fn lemma_tool_dht_exists()
    ensures
        category_of("dht_exists"@) == McpToolCategory::Network,
{
    reveal_strlit("dht_exists");
    reveal_strlit("authenticate");
    reveal_strlit("create_vault");
    reveal_strlit("list_vault");
    reveal_strlit("delete_vault");
    reveal_strlit("import_vault");
    reveal_strlit("export_vault");
    reveal_strlit("health_check");
    reveal_strlit("core_status");
    reveal_strlit("get_session");
    reveal_strlit("logout");
    reveal_strlit("entity");
    reveal_strlit("member");
    reveal_strlit("join_entity");
    reveal_strlit("message");
    reveal_strlit("thread");
    reveal_strlit("reaction");
    reveal_strlit("get_unread_count");
    reveal_strlit("file");
    reveal_strlit("get_disk_stats");
    reveal_strlit("upload");
    reveal_strlit("kanban");
    reveal_strlit("card");
    reveal_strlit("column");
    reveal_strlit("board");
    reveal_strlit("step");
    reveal_strlit("tag");
    reveal_strlit("dht_");
    lemma_prefix_mismatch("dht_exists"@, "list_vault"@, 0);
    assert("dht_exists"@.len() != "health_check"@.len());
    assert("dht_exists"@.len() != "core_status"@.len());
    assert("dht_exists"@.len() != "get_session"@.len());
    assert("dht_exists"@.len() != "logout"@.len());
    lemma_missing_char("dht_exists"@, "entity"@, 1);
    lemma_missing_char("dht_exists"@, "member"@, 0);
    assert("dht_exists"@.len() != "join_entity"@.len());
    lemma_missing_char("dht_exists"@, "message"@, 0);
    lemma_missing_char("dht_exists"@, "thread"@, 2);
    lemma_missing_char("dht_exists"@, "reaction"@, 0);
    assert("dht_exists"@.len() != "get_unread_count"@.len());
    lemma_missing_char("dht_exists"@, "file"@, 0);
    assert("dht_exists"@.len() != "get_disk_stats"@.len());
    lemma_missing_char("dht_exists"@, "upload"@, 0);
    lemma_missing_char("dht_exists"@, "kanban"@, 0);
    lemma_missing_char("dht_exists"@, "card"@, 0);
    lemma_missing_char("dht_exists"@, "column"@, 0);
    lemma_missing_char("dht_exists"@, "board"@, 0);
    lemma_missing_char("dht_exists"@, "step"@, 3);
    lemma_missing_char("dht_exists"@, "tag"@, 1);
    assert("dht_exists"@.subrange(0, 4) =~= "dht_"@);
}

/// The name `dht_closest_peers` falls in Network.
proof fn lemma_tool_dht_closest_peers()
    ensures
        category_of("dht_closest_peers"@) == McpToolCategory::Network,
{
    reveal_strlit("dht_closest_peers");
    reveal_strlit("authenticate");
    reveal_strlit("create_vault");
    reveal_strlit("list_vault");
    reveal_strlit("delete_vault");
    reveal_strlit("import_vault");
    reveal_strlit("export_vault");
    reveal_strlit("health_check");
    reveal_strlit("core_status");
    reveal_strlit("get_session");
    reveal_strlit("logout");
    reveal_strlit("entity");
    reveal_strlit("member");
    reveal_strlit("join_entity");
    reveal_strlit("message");
    reveal_strlit("thread");
    reveal_strlit("reaction");
    reveal_strlit("get_unread_count");
    reveal_strlit("file");
    reveal_strlit("get_disk_stats");
    reveal_strlit("upload");
    reveal_strlit("kanban");
    reveal_strlit("card");
    reveal_strlit("column");
    reveal_strlit("board");
    reveal_strlit("step");
    reveal_strlit("tag");
    reveal_strlit("dht_");
    lemma_prefix_mismatch("dht_closest_peers"@, "authenticate"@, 0);
    lemma_prefix_mismatch("dht_closest_peers"@, "create_vault"@, 0);
    lemma_prefix_mismatch("dht_closest_peers"@, "list_vault"@, 0);
    lemma_prefix_mismatch("dht_closest_peers"@, "delete_vault"@, 1);
    lemma_prefix_mismatch("dht_closest_peers"@, "import_vault"@, 0);
    lemma_prefix_mismatch("dht_closest_peers"@, "export_vault"@, 0);
    assert("dht_closest_peers"@.len() != "health_check"@.len());
    assert("dht_closest_peers"@.len() != "core_status"@.len());
    assert("dht_closest_peers"@.len() != "get_session"@.len());
    assert("dht_closest_peers"@.len() != "logout"@.len());
    lemma_missing_char("dht_closest_peers"@, "entity"@, 1);
    lemma_missing_char("dht_closest_peers"@, "member"@, 0);
    assert("dht_closest_peers"@.len() != "join_entity"@.len());
    lemma_missing_char("dht_closest_peers"@, "message"@, 0);
    lemma_missing_char("dht_closest_peers"@, "thread"@, 4);
    lemma_missing_char("dht_closest_peers"@, "reaction"@, 2);
    assert("dht_closest_peers"@.len() != "get_unread_count"@.len());
    lemma_missing_char("dht_closest_peers"@, "file"@, 0);
    assert("dht_closest_peers"@.len() != "get_disk_stats"@.len());
    lemma_missing_char("dht_closest_peers"@, "upload"@, 0);
    lemma_missing_char("dht_closest_peers"@, "kanban"@, 0);
    lemma_missing_char("dht_closest_peers"@, "card"@, 1);
    lemma_missing_char("dht_closest_peers"@, "column"@, 3);
    lemma_missing_char("dht_closest_peers"@, "board"@, 0);
    lemma_missing_pair("dht_closest_peers"@, "step"@, 1);
    lemma_missing_char("dht_closest_peers"@, "tag"@, 1);
    assert("dht_closest_peers"@.subrange(0, 4) =~= "dht_"@);
}

/// The name `dht_health_metrics` falls in Network.
proof fn lemma_tool_dht_health_metrics()
    ensures
        category_of("dht_health_metrics"@) == McpToolCategory::Network,
{
    reveal_strlit("dht_health_metrics");
    reveal_strlit("authenticate");
    reveal_strlit("create_vault");
    reveal_strlit("list_vault");
    reveal_strlit("delete_vault");
    reveal_strlit("import_vault");
    reveal_strlit("export_vault");
    reveal_strlit("health_check");
    reveal_strlit("core_status");
    reveal_strlit("get_session");
    reveal_strlit("logout");
    reveal_strlit("entity");
    reveal_strlit("member");
    reveal_strlit("join_entity");
    reveal_strlit("message");
    reveal_strlit("thread");
    reveal_strlit("reaction");
    reveal_strlit("get_unread_count");
    reveal_strlit("file");
    reveal_strlit("get_disk_stats");
    reveal_strlit("upload");
    reveal_strlit("kanban");
    reveal_strlit("card");
    reveal_strlit("column");
    reveal_strlit("board");
    reveal_strlit("step");
    reveal_strlit("tag");
    reveal_strlit("dht_");
    lemma_prefix_mismatch("dht_health_metrics"@, "authenticate"@, 0);
    lemma_prefix_mismatch("dht_health_metrics"@, "create_vault"@, 0);
    lemma_prefix_mismatch("dht_health_metrics"@, "list_vault"@, 0);
    lemma_prefix_mismatch("dht_health_metrics"@, "delete_vault"@, 1);
    lemma_prefix_mismatch("dht_health_metrics"@, "import_vault"@, 0);
    lemma_prefix_mismatch("dht_health_metrics"@, "export_vault"@, 0);
    assert("dht_health_metrics"@.len() != "health_check"@.len());
    assert("dht_health_metrics"@.len() != "core_status"@.len());
    assert("dht_health_metrics"@.len() != "get_session"@.len());
    assert("dht_health_metrics"@.len() != "logout"@.len());
    lemma_missing_char("dht_health_metrics"@, "entity"@, 1);
    lemma_missing_char("dht_health_metrics"@, "member"@, 3);
    assert("dht_health_metrics"@.len() != "join_entity"@.len());
    lemma_missing_char("dht_health_metrics"@, "message"@, 5);
    lemma_missing_pair("dht_health_metrics"@, "thread"@, 1);
    lemma_missing_char("dht_health_metrics"@, "reaction"@, 6);
    assert("dht_health_metrics"@.len() != "get_unread_count"@.len());
    lemma_missing_char("dht_health_metrics"@, "file"@, 0);
    assert("dht_health_metrics"@.len() != "get_disk_stats"@.len());
    lemma_missing_char("dht_health_metrics"@, "upload"@, 0);
    lemma_missing_char("dht_health_metrics"@, "kanban"@, 0);
    lemma_missing_pair("dht_health_metrics"@, "card"@, 0);
    lemma_missing_char("dht_health_metrics"@, "column"@, 1);
    lemma_missing_char("dht_health_metrics"@, "board"@, 0);
    lemma_missing_char("dht_health_metrics"@, "step"@, 3);
    lemma_missing_char("dht_health_metrics"@, "tag"@, 2);
    assert("dht_health_metrics"@.subrange(0, 4) =~= "dht_"@);
}

/// The name `dht_network_stats` falls in Network.
proof fn lemma_tool_dht_network_stats()
    ensures
        category_of("dht_network_stats"@) == McpToolCategory::Network,
{
    reveal_strlit("dht_network_stats");
    reveal_strlit("authenticate");
    reveal_strlit("create_vault");
    reveal_strlit("list_vault");
    reveal_strlit("delete_vault");
    reveal_strlit("import_vault");
    reveal_strlit("export_vault");
    reveal_strlit("health_check");
    reveal_strlit("core_status");
    reveal_strlit("get_session");
    reveal_strlit("logout");
    reveal_strlit("entity");
    reveal_strlit("member");
    reveal_strlit("join_entity");
    reveal_strlit("message");
    reveal_strlit("thread");
    reveal_strlit("reaction");
    reveal_strlit("get_unread_count");
    reveal_strlit("file");
    reveal_strlit("get_disk_stats");
    reveal_strlit("upload");
    reveal_strlit("kanban");
    reveal_strlit("card");
    reveal_strlit("column");
    reveal_strlit("board");
    reveal_strlit("step");
    reveal_strlit("tag");
    reveal_strlit("dht_");
    lemma_prefix_mismatch("dht_network_stats"@, "authenticate"@, 0);
    lemma_prefix_mismatch("dht_network_stats"@, "create_vault"@, 0);
    lemma_prefix_mismatch("dht_network_stats"@, "list_vault"@, 0);
    lemma_prefix_mismatch("dht_network_stats"@, "delete_vault"@, 1);
    lemma_prefix_mismatch("dht_network_stats"@, "import_vault"@, 0);
    lemma_prefix_mismatch("dht_network_stats"@, "export_vault"@, 0);
    assert("dht_network_stats"@.len() != "health_check"@.len());
    assert("dht_network_stats"@.len() != "core_status"@.len());
    assert("dht_network_stats"@.len() != "get_session"@.len());
    assert("dht_network_stats"@.len() != "logout"@.len());
    lemma_missing_char("dht_network_stats"@, "entity"@, 3);
    lemma_missing_char("dht_network_stats"@, "member"@, 0);
    assert("dht_network_stats"@.len() != "join_entity"@.len());
    lemma_missing_char("dht_network_stats"@, "message"@, 0);
    lemma_missing_pair("dht_network_stats"@, "thread"@, 0);
    lemma_missing_char("dht_network_stats"@, "reaction"@, 3);
    assert("dht_network_stats"@.len() != "get_unread_count"@.len());
    lemma_missing_char("dht_network_stats"@, "file"@, 0);
    assert("dht_network_stats"@.len() != "get_disk_stats"@.len());
    lemma_missing_char("dht_network_stats"@, "upload"@, 0);
    lemma_missing_char("dht_network_stats"@, "kanban"@, 3);
    lemma_missing_char("dht_network_stats"@, "card"@, 0);
    lemma_missing_char("dht_network_stats"@, "column"@, 0);
    lemma_missing_char("dht_network_stats"@, "board"@, 0);
    lemma_missing_char("dht_network_stats"@, "step"@, 3);
    lemma_missing_char("dht_network_stats"@, "tag"@, 2);
    assert("dht_network_stats"@.subrange(0, 4) =~= "dht_"@);
}

/// The name `security_metrics` falls in Network.
proof fn lemma_tool_security_metrics()
    ensures
        category_of("security_metrics"@) == McpToolCategory::Network,
{
    reveal_strlit("security_metrics");
    reveal_strlit("authenticate");
    reveal_strlit("create_vault");
    reveal_strlit("list_vault");
    reveal_strlit("delete_vault");
    reveal_strlit("import_vault");
    reveal_strlit("export_vault");
    reveal_strlit("health_check");
    reveal_strlit("core_status");
    reveal_strlit("get_session");
    reveal_strlit("logout");
    reveal_strlit("entity");
    reveal_strlit("member");
    reveal_strlit("join_entity");
    reveal_strlit("message");
    reveal_strlit("thread");
    reveal_strlit("reaction");
    reveal_strlit("get_unread_count");
    reveal_strlit("file");
    reveal_strlit("get_disk_stats");
    reveal_strlit("upload");
    reveal_strlit("kanban");
    reveal_strlit("card");
    reveal_strlit("column");
    reveal_strlit("board");
    reveal_strlit("step");
    reveal_strlit("tag");
    reveal_strlit("metrics");
    lemma_prefix_mismatch("security_metrics"@, "authenticate"@, 0);
    lemma_prefix_mismatch("security_metrics"@, "create_vault"@, 0);
    lemma_prefix_mismatch("security_metrics"@, "list_vault"@, 0);
    lemma_prefix_mismatch("security_metrics"@, "delete_vault"@, 0);
    lemma_prefix_mismatch("security_metrics"@, "import_vault"@, 0);
    lemma_prefix_mismatch("security_metrics"@, "export_vault"@, 0);
    assert("security_metrics"@.len() != "health_check"@.len());
    assert("security_metrics"@.len() != "core_status"@.len());
    assert("security_metrics"@.len() != "get_session"@.len());
    assert("security_metrics"@.len() != "logout"@.len());
    lemma_missing_char("security_metrics"@, "entity"@, 1);
    lemma_missing_char("security_metrics"@, "member"@, 3);
    assert("security_metrics"@.len() != "join_entity"@.len());
    lemma_missing_char("security_metrics"@, "message"@, 4);
    lemma_missing_char("security_metrics"@, "thread"@, 1);
    lemma_missing_char("security_metrics"@, "reaction"@, 2);
    assert("security_metrics"@[0] != "get_unread_count"@[0]);
    lemma_missing_char("security_metrics"@, "file"@, 0);
    assert("security_metrics"@.len() != "get_disk_stats"@.len());
    lemma_missing_char("security_metrics"@, "upload"@, 1);
    lemma_missing_char("security_metrics"@, "kanban"@, 0);
    lemma_missing_char("security_metrics"@, "card"@, 1);
    lemma_missing_char("security_metrics"@, "column"@, 1);
    lemma_missing_char("security_metrics"@, "board"@, 0);
    lemma_missing_char("security_metrics"@, "step"@, 3);
    lemma_missing_char("security_metrics"@, "tag"@, 1);
    assert("security_metrics"@.subrange(9, 16) =~= "metrics"@);
    assert(occurs_at("security_metrics"@, "metrics"@, 9));
}

/// The name `trust_metrics` falls in Network.
proof fn lemma_tool_trust_metrics()
    ensures
        category_of("trust_metrics"@) == McpToolCategory::Network,
{
    reveal_strlit("trust_metrics");
    reveal_strlit("authenticate");
    reveal_strlit("create_vault");
    reveal_strlit("list_vault");
    reveal_strlit("delete_vault");
    reveal_strlit("import_vault");
    reveal_strlit("export_vault");
    reveal_strlit("health_check");
    reveal_strlit("core_status");
    reveal_strlit("get_session");
    reveal_strlit("logout");
    reveal_strlit("entity");
    reveal_strlit("member");
    reveal_strlit("join_entity");
    reveal_strlit("message");
    reveal_strlit("thread");
    reveal_strlit("reaction");
    reveal_strlit("get_unread_count");
    reveal_strlit("file");
    reveal_strlit("get_disk_stats");
    reveal_strlit("upload");
    reveal_strlit("kanban");
    reveal_strlit("card");
    reveal_strlit("column");
    reveal_strlit("board");
    reveal_strlit("step");
    reveal_strlit("tag");
    reveal_strlit("metrics");
    lemma_prefix_mismatch("trust_metrics"@, "authenticate"@, 0);
    lemma_prefix_mismatch("trust_metrics"@, "create_vault"@, 0);
    lemma_prefix_mismatch("trust_metrics"@, "list_vault"@, 0);
    lemma_prefix_mismatch("trust_metrics"@, "delete_vault"@, 0);
    lemma_prefix_mismatch("trust_metrics"@, "import_vault"@, 0);
    lemma_prefix_mismatch("trust_metrics"@, "export_vault"@, 0);
    assert("trust_metrics"@.len() != "health_check"@.len());
    assert("trust_metrics"@.len() != "core_status"@.len());
    assert("trust_metrics"@.len() != "get_session"@.len());
    assert("trust_metrics"@.len() != "logout"@.len());
    lemma_missing_char("trust_metrics"@, "entity"@, 1);
    lemma_missing_char("trust_metrics"@, "member"@, 3);
    assert("trust_metrics"@.len() != "join_entity"@.len());
    lemma_missing_char("trust_metrics"@, "message"@, 4);
    lemma_missing_char("trust_metrics"@, "thread"@, 1);
    lemma_missing_char("trust_metrics"@, "reaction"@, 2);
    assert("trust_metrics"@.len() != "get_unread_count"@.len());
    lemma_missing_char("trust_metrics"@, "file"@, 0);
    assert("trust_metrics"@.len() != "get_disk_stats"@.len());
    lemma_missing_char("trust_metrics"@, "upload"@, 1);
    lemma_missing_char("trust_metrics"@, "kanban"@, 0);
    lemma_missing_char("trust_metrics"@, "card"@, 1);
    lemma_missing_char("trust_metrics"@, "column"@, 1);
    lemma_missing_char("trust_metrics"@, "board"@, 0);
    lemma_missing_char("trust_metrics"@, "step"@, 3);
    lemma_missing_char("trust_metrics"@, "tag"@, 1);
    assert("trust_metrics"@.subrange(6, 13) =~= "metrics"@);
    assert(occurs_at("trust_metrics"@, "metrics"@, 6));
}

/// The name `placement_metrics` falls in Network.
proof fn lemma_tool_placement_metrics()
    ensures
        category_of("placement_metrics"@) == McpToolCategory::Network,
{
    reveal_strlit("placement_metrics");
    reveal_strlit("authenticate");
    reveal_strlit("create_vault");
    reveal_strlit("list_vault");
    reveal_strlit("delete_vault");
    reveal_strlit("import_vault");
    reveal_strlit("export_vault");
    reveal_strlit("health_check");
    reveal_strlit("core_status");
    reveal_strlit("get_session");
    reveal_strlit("logout");
    reveal_strlit("entity");
    reveal_strlit("member");
    reveal_strlit("join_entity");
    reveal_strlit("message");
    reveal_strlit("thread");
    reveal_strlit("reaction");
    reveal_strlit("get_unread_count");
    reveal_strlit("file");
    reveal_strlit("get_disk_stats");
    reveal_strlit("upload");
    reveal_strlit("kanban");
    reveal_strlit("card");
    reveal_strlit("column");
    reveal_strlit("board");
    reveal_strlit("step");
    reveal_strlit("tag");
    reveal_strlit("metrics");
    lemma_prefix_mismatch("placement_metrics"@, "authenticate"@, 0);
    lemma_prefix_mismatch("placement_metrics"@, "create_vault"@, 0);
    lemma_prefix_mismatch("placement_metrics"@, "list_vault"@, 0);
    lemma_prefix_mismatch("placement_metrics"@, "delete_vault"@, 0);
    lemma_prefix_mismatch("placement_metrics"@, "import_vault"@, 0);
    lemma_prefix_mismatch("placement_metrics"@, "export_vault"@, 0);
    assert("placement_metrics"@.len() != "health_check"@.len());
    assert("placement_metrics"@.len() != "core_status"@.len());
    assert("placement_metrics"@.len() != "get_session"@.len());
    assert("placement_metrics"@.len() != "logout"@.len());
    lemma_missing_char("placement_metrics"@, "entity"@, 5);
    lemma_missing_char("placement_metrics"@, "member"@, 3);
    assert("placement_metrics"@.len() != "join_entity"@.len());
    lemma_missing_char("placement_metrics"@, "message"@, 5);
    lemma_missing_char("placement_metrics"@, "thread"@, 1);
    lemma_missing_char("placement_metrics"@, "reaction"@, 6);
    assert("placement_metrics"@.len() != "get_unread_count"@.len());
    lemma_missing_char("placement_metrics"@, "file"@, 0);
    assert("placement_metrics"@.len() != "get_disk_stats"@.len());
    lemma_missing_char("placement_metrics"@, "upload"@, 0);
    lemma_missing_char("placement_metrics"@, "kanban"@, 0);
    lemma_missing_char("placement_metrics"@, "card"@, 3);
    lemma_missing_char("placement_metrics"@, "column"@, 1);
    lemma_missing_char("placement_metrics"@, "board"@, 0);
    lemma_missing_pair("placement_metrics"@, "step"@, 0);
    lemma_missing_char("placement_metrics"@, "tag"@, 2);
    assert("placement_metrics"@.subrange(10, 17) =~= "metrics"@);
    assert(occurs_at("placement_metrics"@, "metrics"@, 10));
}

/// The name `metrics_summary` falls in Network.
proof fn lemma_tool_metrics_summary()
    ensures
        category_of("metrics_summary"@) == McpToolCategory::Network,
{
    reveal_strlit("metrics_summary");
    reveal_strlit("authenticate");
    reveal_strlit("create_vault");
    reveal_strlit("list_vault");
    reveal_strlit("delete_vault");
    reveal_strlit("import_vault");
    reveal_strlit("export_vault");
    reveal_strlit("health_check");
    reveal_strlit("core_status");
    reveal_strlit("get_session");
    reveal_strlit("logout");
    reveal_strlit("entity");
    reveal_strlit("member");
    reveal_strlit("join_entity");
    reveal_strlit("message");
    reveal_strlit("thread");
    reveal_strlit("reaction");
    reveal_strlit("get_unread_count");
    reveal_strlit("file");
    reveal_strlit("get_disk_stats");
    reveal_strlit("upload");
    reveal_strlit("kanban");
    reveal_strlit("card");
    reveal_strlit("column");
    reveal_strlit("board");
    reveal_strlit("step");
    reveal_strlit("tag");
    reveal_strlit("metrics");
    lemma_prefix_mismatch("metrics_summary"@, "authenticate"@, 0);
    lemma_prefix_mismatch("metrics_summary"@, "create_vault"@, 0);
    lemma_prefix_mismatch("metrics_summary"@, "list_vault"@, 0);
    lemma_prefix_mismatch("metrics_summary"@, "delete_vault"@, 0);
    lemma_prefix_mismatch("metrics_summary"@, "import_vault"@, 0);
    lemma_prefix_mismatch("metrics_summary"@, "export_vault"@, 0);
    assert("metrics_summary"@.len() != "health_check"@.len());
    assert("metrics_summary"@.len() != "core_status"@.len());
    assert("metrics_summary"@.len() != "get_session"@.len());
    assert("metrics_summary"@.len() != "logout"@.len());
    lemma_missing_char("metrics_summary"@, "entity"@, 1);
    lemma_missing_char("metrics_summary"@, "member"@, 3);
    assert("metrics_summary"@.len() != "join_entity"@.len());
    lemma_missing_char("metrics_summary"@, "message"@, 5);
    lemma_missing_char("metrics_summary"@, "thread"@, 1);
    lemma_missing_char("metrics_summary"@, "reaction"@, 6);
    assert("metrics_summary"@.len() != "get_unread_count"@.len());
    lemma_missing_char("metrics_summary"@, "file"@, 0);
    assert("metrics_summary"@.len() != "get_disk_stats"@.len());
    lemma_missing_char("metrics_summary"@, "upload"@, 1);
    lemma_missing_char("metrics_summary"@, "kanban"@, 0);
    lemma_missing_char("metrics_summary"@, "card"@, 3);
    lemma_missing_char("metrics_summary"@, "column"@, 1);
    lemma_missing_char("metrics_summary"@, "board"@, 0);
    lemma_missing_char("metrics_summary"@, "step"@, 3);
    lemma_missing_char("metrics_summary"@, "tag"@, 2);
    assert("metrics_summary"@.subrange(0, 7) =~= "metrics"@);
    assert(occurs_at("metrics_summary"@, "metrics"@, 0));
}

/// The name `create_poll` falls in Social.
proof fn lemma_tool_create_poll()
    ensures
        category_of("create_poll"@) == McpToolCategory::Social,
{
    reveal_strlit("create_poll");
    reveal_strlit("authenticate");
    reveal_strlit("create_vault");
    reveal_strlit("list_vault");
    reveal_strlit("delete_vault");
    reveal_strlit("import_vault");
    reveal_strlit("export_vault");
    reveal_strlit("health_check");
    reveal_strlit("core_status");
    reveal_strlit("get_session");
    reveal_strlit("logout");
    reveal_strlit("entity");
    reveal_strlit("member");
    reveal_strlit("join_entity");
    reveal_strlit("message");
    reveal_strlit("thread");
    reveal_strlit("reaction");
    reveal_strlit("get_unread_count");
    reveal_strlit("file");
    reveal_strlit("get_disk_stats");
    reveal_strlit("upload");
    reveal_strlit("kanban");
    reveal_strlit("card");
    reveal_strlit("column");
    reveal_strlit("board");
    reveal_strlit("step");
    reveal_strlit("tag");
    reveal_strlit("network_");
    reveal_strlit("dht_");
    reveal_strlit("metrics");
    reveal_strlit("trust");
    reveal_strlit("placement");
    reveal_strlit("presence");
    reveal_strlit("poll");
    lemma_prefix_mismatch("create_poll"@, "list_vault"@, 0);
    assert("create_poll"@.len() != "health_check"@.len());
    assert("create_poll"@[1] != "core_status"@[1]);
    assert("create_poll"@[0] != "get_session"@[0]);
    assert("create_poll"@.len() != "logout"@.len());
    lemma_missing_char("create_poll"@, "entity"@, 1);
    lemma_missing_char("create_poll"@, "member"@, 0);
    assert("create_poll"@[0] != "join_entity"@[0]);
    lemma_missing_char("create_poll"@, "message"@, 0);
    lemma_missing_char("create_poll"@, "thread"@, 1);
    lemma_missing_char("create_poll"@, "reaction"@, 5);
    assert("create_poll"@.len() != "get_unread_count"@.len());
    lemma_missing_char("create_poll"@, "file"@, 0);
    assert("create_poll"@.len() != "get_disk_stats"@.len());
    lemma_missing_char("create_poll"@, "upload"@, 0);
    lemma_missing_char("create_poll"@, "kanban"@, 0);
    lemma_missing_char("create_poll"@, "card"@, 3);
    lemma_missing_char("create_poll"@, "column"@, 3);
    lemma_missing_char("create_poll"@, "board"@, 0);
    lemma_missing_char("create_poll"@, "step"@, 0);
    lemma_missing_char("create_poll"@, "tag"@, 2);
    lemma_prefix_mismatch("create_poll"@, "network_"@, 0);
    lemma_prefix_mismatch("create_poll"@, "dht_"@, 0);
    lemma_missing_char("create_poll"@, "metrics"@, 0);
    lemma_missing_char("create_poll"@, "trust"@, 2);
    lemma_missing_char("create_poll"@, "placement"@, 5);
    lemma_missing_char("create_poll"@, "presence"@, 3);
    assert("create_poll"@.subrange(7, 11) =~= "poll"@);
    assert(occurs_at("create_poll"@, "poll"@, 7));
}

/// The name `vote_in_poll` falls in Social.
proof fn lemma_tool_vote_in_poll()
    ensures
        category_of("vote_in_poll"@) == McpToolCategory::Social,
{
    reveal_strlit("vote_in_poll");
    reveal_strlit("authenticate");
    reveal_strlit("create_vault");
    reveal_strlit("list_vault");
    reveal_strlit("delete_vault");
    reveal_strlit("import_vault");
    reveal_strlit("export_vault");
    reveal_strlit("health_check");
    reveal_strlit("core_status");
    reveal_strlit("get_session");
    reveal_strlit("logout");
    reveal_strlit("entity");
    reveal_strlit("member");
    reveal_strlit("join_entity");
    reveal_strlit("message");
    reveal_strlit("thread");
    reveal_strlit("reaction");
    reveal_strlit("get_unread_count");
    reveal_strlit("file");
    reveal_strlit("get_disk_stats");
    reveal_strlit("upload");
    reveal_strlit("kanban");
    reveal_strlit("card");
    reveal_strlit("column");
    reveal_strlit("board");
    reveal_strlit("step");
    reveal_strlit("tag");
    reveal_strlit("network_");
    reveal_strlit("dht_");
    reveal_strlit("metrics");
    reveal_strlit("trust");
    reveal_strlit("placement");
    reveal_strlit("presence");
    reveal_strlit("poll");
    lemma_prefix_mismatch("vote_in_poll"@, "authenticate"@, 0);
    lemma_prefix_mismatch("vote_in_poll"@, "create_vault"@, 0);
    lemma_prefix_mismatch("vote_in_poll"@, "list_vault"@, 0);
    lemma_prefix_mismatch("vote_in_poll"@, "delete_vault"@, 0);
    lemma_prefix_mismatch("vote_in_poll"@, "import_vault"@, 0);
    lemma_prefix_mismatch("vote_in_poll"@, "export_vault"@, 0);
    assert("vote_in_poll"@[0] != "health_check"@[0]);
    assert("vote_in_poll"@.len() != "core_status"@.len());
    assert("vote_in_poll"@.len() != "get_session"@.len());
    assert("vote_in_poll"@.len() != "logout"@.len());
    lemma_missing_char("vote_in_poll"@, "entity"@, 5);
    lemma_missing_char("vote_in_poll"@, "member"@, 0);
    assert("vote_in_poll"@.len() != "join_entity"@.len());
    lemma_missing_char("vote_in_poll"@, "message"@, 0);
    lemma_missing_char("vote_in_poll"@, "thread"@, 1);
    lemma_missing_char("vote_in_poll"@, "reaction"@, 0);
    assert("vote_in_poll"@.len() != "get_unread_count"@.len());
    lemma_missing_char("vote_in_poll"@, "file"@, 0);
    assert("vote_in_poll"@.len() != "get_disk_stats"@.len());
    lemma_missing_char("vote_in_poll"@, "upload"@, 0);
    lemma_missing_char("vote_in_poll"@, "kanban"@, 0);
    lemma_missing_char("vote_in_poll"@, "card"@, 0);
    lemma_missing_char("vote_in_poll"@, "column"@, 0);
    lemma_missing_char("vote_in_poll"@, "board"@, 0);
    lemma_missing_char("vote_in_poll"@, "step"@, 0);
    lemma_missing_char("vote_in_poll"@, "tag"@, 1);
    lemma_prefix_mismatch("vote_in_poll"@, "network_"@, 0);
    lemma_prefix_mismatch("vote_in_poll"@, "dht_"@, 0);
    lemma_missing_char("vote_in_poll"@, "metrics"@, 0);
    lemma_missing_char("vote_in_poll"@, "trust"@, 1);
    lemma_missing_char("vote_in_poll"@, "placement"@, 2);
    lemma_missing_char("vote_in_poll"@, "presence"@, 1);
    assert("vote_in_poll"@.subrange(8, 12) =~= "poll"@);
    assert(occurs_at("vote_in_poll"@, "poll"@, 8));
}

/// The name `create_story` falls in Social.
proof fn lemma_tool_create_story()
    ensures
        category_of("create_story"@) == McpToolCategory::Social,
{
    reveal_strlit("create_story");
    reveal_strlit("authenticate");
    reveal_strlit("create_vault");
    reveal_strlit("list_vault");
    reveal_strlit("delete_vault");
    reveal_strlit("import_vault");
    reveal_strlit("export_vault");
    reveal_strlit("health_check");
    reveal_strlit("core_status");
    reveal_strlit("get_session");
    reveal_strlit("logout");
    reveal_strlit("entity");
    reveal_strlit("member");
    reveal_strlit("join_entity");
    reveal_strlit("message");
    reveal_strlit("thread");
    reveal_strlit("reaction");
    reveal_strlit("get_unread_count");
    reveal_strlit("file");
    reveal_strlit("get_disk_stats");
    reveal_strlit("upload");
    reveal_strlit("kanban");
    reveal_strlit("card");
    reveal_strlit("column");
    reveal_strlit("board");
    reveal_strlit("step");
    reveal_strlit("tag");
    reveal_strlit("network_");
    reveal_strlit("dht_");
    reveal_strlit("metrics");
    reveal_strlit("trust");
    reveal_strlit("placement");
    reveal_strlit("presence");
    reveal_strlit("story");
    lemma_prefix_mismatch("create_story"@, "authenticate"@, 0);
    lemma_prefix_mismatch("create_story"@, "create_vault"@, 7);
    lemma_prefix_mismatch("create_story"@, "list_vault"@, 0);
    lemma_prefix_mismatch("create_story"@, "delete_vault"@, 0);
    lemma_prefix_mismatch("create_story"@, "import_vault"@, 0);
    lemma_prefix_mismatch("create_story"@, "export_vault"@, 0);
    assert("create_story"@[0] != "health_check"@[0]);
    assert("create_story"@.len() != "core_status"@.len());
    assert("create_story"@.len() != "get_session"@.len());
    assert("create_story"@.len() != "logout"@.len());
    lemma_missing_char("create_story"@, "entity"@, 1);
    lemma_missing_char("create_story"@, "member"@, 0);
    assert("create_story"@.len() != "join_entity"@.len());
    lemma_missing_char("create_story"@, "message"@, 0);
    lemma_missing_char("create_story"@, "thread"@, 1);
    lemma_missing_char("create_story"@, "reaction"@, 5);
    assert("create_story"@.len() != "get_unread_count"@.len());
    lemma_missing_char("create_story"@, "file"@, 0);
    assert("create_story"@.len() != "get_disk_stats"@.len());
    lemma_missing_char("create_story"@, "upload"@, 0);
    lemma_missing_char("create_story"@, "kanban"@, 0);
    lemma_missing_char("create_story"@, "card"@, 3);
    lemma_missing_char("create_story"@, "column"@, 2);
    lemma_missing_char("create_story"@, "board"@, 0);
    lemma_missing_char("create_story"@, "step"@, 3);
    lemma_missing_char("create_story"@, "tag"@, 2);
    lemma_prefix_mismatch("create_story"@, "network_"@, 0);
    lemma_prefix_mismatch("create_story"@, "dht_"@, 0);
    lemma_missing_char("create_story"@, "metrics"@, 0);
    lemma_missing_char("create_story"@, "trust"@, 2);
    lemma_missing_char("create_story"@, "placement"@, 0);
    lemma_missing_char("create_story"@, "presence"@, 0);
    assert("create_story"@.subrange(7, 12) =~= "story"@);
    assert(occurs_at("create_story"@, "story"@, 7));
}

/// The name `get_media_metadata` falls in Network.
proof fn lemma_tool_get_media_metadata()
    ensures
        category_of("get_media_metadata"@) == McpToolCategory::Network,
{
    reveal_strlit("get_media_metadata");
    reveal_strlit("authenticate");
    reveal_strlit("create_vault");
    reveal_strlit("list_vault");
    reveal_strlit("delete_vault");
    reveal_strlit("import_vault");
    reveal_strlit("export_vault");
    reveal_strlit("health_check");
    reveal_strlit("core_status");
    reveal_strlit("get_session");
    reveal_strlit("logout");
    reveal_strlit("entity");
    reveal_strlit("member");
    reveal_strlit("join_entity");
    reveal_strlit("message");
    reveal_strlit("thread");
    reveal_strlit("reaction");
    reveal_strlit("get_unread_count");
    reveal_strlit("file");
    reveal_strlit("get_disk_stats");
    reveal_strlit("upload");
    reveal_strlit("kanban");
    reveal_strlit("card");
    reveal_strlit("column");
    reveal_strlit("board");
    reveal_strlit("step");
    reveal_strlit("tag");
    reveal_strlit("network_");
    reveal_strlit("dht_");
    reveal_strlit("metrics");
    reveal_strlit("trust");
    reveal_strlit("placement");
    reveal_strlit("presence");
    reveal_strlit("poll");
    reveal_strlit("story");
    reveal_strlit("call");
    reveal_strlit("location");
    reveal_strlit("screen");
    reveal_strlit("presentation");
    reveal_strlit("website");
    reveal_strlit("workspace");
    lemma_prefix_mismatch("get_media_metadata"@, "authenticate"@, 0);
    lemma_prefix_mismatch("get_media_metadata"@, "create_vault"@, 0);
    lemma_prefix_mismatch("get_media_metadata"@, "list_vault"@, 0);
    lemma_prefix_mismatch("get_media_metadata"@, "delete_vault"@, 0);
    lemma_prefix_mismatch("get_media_metadata"@, "import_vault"@, 0);
    lemma_prefix_mismatch("get_media_metadata"@, "export_vault"@, 0);
    assert("get_media_metadata"@.len() != "health_check"@.len());
    assert("get_media_metadata"@.len() != "core_status"@.len());
    assert("get_media_metadata"@.len() != "get_session"@.len());
    assert("get_media_metadata"@.len() != "logout"@.len());
    lemma_missing_char("get_media_metadata"@, "entity"@, 1);
    lemma_missing_char("get_media_metadata"@, "member"@, 3);
    assert("get_media_metadata"@.len() != "join_entity"@.len());
    lemma_missing_char("get_media_metadata"@, "message"@, 2);
    lemma_missing_char("get_media_metadata"@, "thread"@, 1);
    lemma_missing_char("get_media_metadata"@, "reaction"@, 0);
    assert("get_media_metadata"@.len() != "get_unread_count"@.len());
    lemma_missing_char("get_media_metadata"@, "file"@, 0);
    assert("get_media_metadata"@.len() != "get_disk_stats"@.len());
    lemma_missing_char("get_media_metadata"@, "upload"@, 0);
    lemma_missing_char("get_media_metadata"@, "kanban"@, 0);
    lemma_missing_char("get_media_metadata"@, "card"@, 0);
    lemma_missing_char("get_media_metadata"@, "column"@, 0);
    lemma_missing_char("get_media_metadata"@, "board"@, 0);
    lemma_missing_char("get_media_metadata"@, "step"@, 0);
    lemma_missing_pair("get_media_metadata"@, "tag"@, 1);
    lemma_prefix_mismatch("get_media_metadata"@, "network_"@, 0);
    lemma_prefix_mismatch("get_media_metadata"@, "dht_"@, 0);
    lemma_missing_char("get_media_metadata"@, "metrics"@, 3);
    lemma_missing_char("get_media_metadata"@, "trust"@, 1);
    lemma_missing_char("get_media_metadata"@, "placement"@, 0);
    lemma_missing_char("get_media_metadata"@, "presence"@, 0);
    lemma_missing_char("get_media_metadata"@, "poll"@, 0);
    lemma_missing_char("get_media_metadata"@, "story"@, 0);
    lemma_missing_char("get_media_metadata"@, "call"@, 0);
    lemma_missing_char("get_media_metadata"@, "location"@, 0);
    lemma_missing_char("get_media_metadata"@, "screen"@, 0);
    lemma_missing_char("get_media_metadata"@, "presentation"@, 0);
    lemma_missing_char("get_media_metadata"@, "website"@, 0);
    lemma_missing_char("get_media_metadata"@, "workspace"@, 0);
}

/// The name `share_location` falls in Social.
proof fn lemma_tool_share_location()
    ensures
        category_of("share_location"@) == McpToolCategory::Social,
{
    reveal_strlit("share_location");
    reveal_strlit("authenticate");
    reveal_strlit("create_vault");
    reveal_strlit("list_vault");
    reveal_strlit("delete_vault");
    reveal_strlit("import_vault");
    reveal_strlit("export_vault");
    reveal_strlit("health_check");
    reveal_strlit("core_status");
    reveal_strlit("get_session");
    reveal_strlit("logout");
    reveal_strlit("entity");
    reveal_strlit("member");
    reveal_strlit("join_entity");
    reveal_strlit("message");
    reveal_strlit("thread");
    reveal_strlit("reaction");
    reveal_strlit("get_unread_count");
    reveal_strlit("file");
    reveal_strlit("get_disk_stats");
    reveal_strlit("upload");
    reveal_strlit("kanban");
    reveal_strlit("card");
    reveal_strlit("column");
    reveal_strlit("board");
    reveal_strlit("step");
    reveal_strlit("tag");
    reveal_strlit("network_");
    reveal_strlit("dht_");
    reveal_strlit("metrics");
    reveal_strlit("trust");
    reveal_strlit("placement");
    reveal_strlit("presence");
    reveal_strlit("location");
    lemma_prefix_mismatch("share_location"@, "authenticate"@, 0);
    lemma_prefix_mismatch("share_location"@, "create_vault"@, 0);
    lemma_prefix_mismatch("share_location"@, "list_vault"@, 0);
    lemma_prefix_mismatch("share_location"@, "delete_vault"@, 0);
    lemma_prefix_mismatch("share_location"@, "import_vault"@, 0);
    lemma_prefix_mismatch("share_location"@, "export_vault"@, 0);
    assert("share_location"@.len() != "health_check"@.len());
    assert("share_location"@.len() != "core_status"@.len());
    assert("share_location"@.len() != "get_session"@.len());
    assert("share_location"@.len() != "logout"@.len());
    lemma_missing_char("share_location"@, "entity"@, 5);
    lemma_missing_char("share_location"@, "member"@, 0);
    assert("share_location"@.len() != "join_entity"@.len());
    lemma_missing_char("share_location"@, "message"@, 0);
    lemma_missing_char("share_location"@, "thread"@, 5);
    lemma_missing_pair("share_location"@, "reaction"@, 1);
    assert("share_location"@.len() != "get_unread_count"@.len());
    lemma_missing_char("share_location"@, "file"@, 0);
    assert("share_location"@[0] != "get_disk_stats"@[0]);
    lemma_missing_char("share_location"@, "upload"@, 0);
    lemma_missing_char("share_location"@, "kanban"@, 0);
    lemma_missing_char("share_location"@, "card"@, 3);
    lemma_missing_char("share_location"@, "column"@, 3);
    lemma_missing_char("share_location"@, "board"@, 0);
    lemma_missing_char("share_location"@, "step"@, 3);
    lemma_missing_char("share_location"@, "tag"@, 2);
    lemma_prefix_mismatch("share_location"@, "network_"@, 0);
    lemma_prefix_mismatch("share_location"@, "dht_"@, 0);
    lemma_missing_char("share_location"@, "metrics"@, 0);
    lemma_missing_char("share_location"@, "trust"@, 2);
    lemma_missing_char("share_location"@, "placement"@, 0);
    lemma_missing_char("share_location"@, "presence"@, 0);
    assert("share_location"@.subrange(6, 14) =~= "location"@);
    assert(occurs_at("share_location"@, "location"@, 6));
}

/// The name `share_screen` falls in Social.
proof fn lemma_tool_share_screen()
    ensures
        category_of("share_screen"@) == McpToolCategory::Social,
{
    reveal_strlit("share_screen");
    reveal_strlit("authenticate");
    reveal_strlit("create_vault");
    reveal_strlit("list_vault");
    reveal_strlit("delete_vault");
    reveal_strlit("import_vault");
    reveal_strlit("export_vault");
    reveal_strlit("health_check");
    reveal_strlit("core_status");
    reveal_strlit("get_session");
    reveal_strlit("logout");
    reveal_strlit("entity");
    reveal_strlit("member");
    reveal_strlit("join_entity");
    reveal_strlit("message");
    reveal_strlit("thread");
    reveal_strlit("reaction");
    reveal_strlit("get_unread_count");
    reveal_strlit("file");
    reveal_strlit("get_disk_stats");
    reveal_strlit("upload");
    reveal_strlit("kanban");
    reveal_strlit("card");
    reveal_strlit("column");
    reveal_strlit("board");
    reveal_strlit("step");
    reveal_strlit("tag");
    reveal_strlit("network_");
    reveal_strlit("dht_");
    reveal_strlit("metrics");
    reveal_strlit("trust");
    reveal_strlit("placement");
    reveal_strlit("presence");
    reveal_strlit("screen");
    lemma_prefix_mismatch("share_screen"@, "authenticate"@, 0);
    lemma_prefix_mismatch("share_screen"@, "create_vault"@, 0);
    lemma_prefix_mismatch("share_screen"@, "list_vault"@, 0);
    lemma_prefix_mismatch("share_screen"@, "delete_vault"@, 0);
    lemma_prefix_mismatch("share_screen"@, "import_vault"@, 0);
    lemma_prefix_mismatch("share_screen"@, "export_vault"@, 0);
    assert("share_screen"@[0] != "health_check"@[0]);
    assert("share_screen"@.len() != "core_status"@.len());
    assert("share_screen"@.len() != "get_session"@.len());
    assert("share_screen"@.len() != "logout"@.len());
    lemma_missing_char("share_screen"@, "entity"@, 2);
    lemma_missing_char("share_screen"@, "member"@, 0);
    assert("share_screen"@.len() != "join_entity"@.len());
    lemma_missing_char("share_screen"@, "message"@, 0);
    lemma_missing_char("share_screen"@, "thread"@, 0);
    lemma_missing_char("share_screen"@, "reaction"@, 4);
    assert("share_screen"@.len() != "get_unread_count"@.len());
    lemma_missing_char("share_screen"@, "file"@, 0);
    assert("share_screen"@.len() != "get_disk_stats"@.len());
    lemma_missing_char("share_screen"@, "upload"@, 0);
    lemma_missing_char("share_screen"@, "kanban"@, 0);
    lemma_missing_char("share_screen"@, "card"@, 3);
    lemma_missing_char("share_screen"@, "column"@, 1);
    lemma_missing_char("share_screen"@, "board"@, 0);
    lemma_missing_char("share_screen"@, "step"@, 1);
    lemma_missing_char("share_screen"@, "tag"@, 0);
    lemma_prefix_mismatch("share_screen"@, "network_"@, 0);
    lemma_prefix_mismatch("share_screen"@, "dht_"@, 0);
    lemma_missing_char("share_screen"@, "metrics"@, 0);
    lemma_missing_char("share_screen"@, "trust"@, 0);
    lemma_missing_char("share_screen"@, "placement"@, 0);
    lemma_missing_char("share_screen"@, "presence"@, 0);
    assert("share_screen"@.subrange(6, 12) =~= "screen"@);
    assert(occurs_at("share_screen"@, "screen"@, 6));
}

/// The name `start_presentation` falls in Social.
proof fn lemma_tool_start_presentation()
    ensures
        category_of("start_presentation"@) == McpToolCategory::Social,
{
    reveal_strlit("start_presentation");
    reveal_strlit("authenticate");
    reveal_strlit("create_vault");
    reveal_strlit("list_vault");
    reveal_strlit("delete_vault");
    reveal_strlit("import_vault");
    reveal_strlit("export_vault");
    reveal_strlit("health_check");
    reveal_strlit("core_status");
    reveal_strlit("get_session");
    reveal_strlit("logout");
    reveal_strlit("entity");
    reveal_strlit("member");
    reveal_strlit("join_entity");
    reveal_strlit("message");
    reveal_strlit("thread");
    reveal_strlit("reaction");
    reveal_strlit("get_unread_count");
    reveal_strlit("file");
    reveal_strlit("get_disk_stats");
    reveal_strlit("upload");
    reveal_strlit("kanban");
    reveal_strlit("card");
    reveal_strlit("column");
    reveal_strlit("board");
    reveal_strlit("step");
    reveal_strlit("tag");
    reveal_strlit("network_");
    reveal_strlit("dht_");
    reveal_strlit("metrics");
    reveal_strlit("trust");
    reveal_strlit("placement");
    reveal_strlit("presence");
    reveal_strlit("presentation");
    lemma_prefix_mismatch("start_presentation"@, "authenticate"@, 0);
    lemma_prefix_mismatch("start_presentation"@, "create_vault"@, 0);
    lemma_prefix_mismatch("start_presentation"@, "list_vault"@, 0);
    lemma_prefix_mismatch("start_presentation"@, "delete_vault"@, 0);
    lemma_prefix_mismatch("start_presentation"@, "import_vault"@, 0);
    lemma_prefix_mismatch("start_presentation"@, "export_vault"@, 0);
    assert("start_presentation"@.len() != "health_check"@.len());
    assert("start_presentation"@.len() != "core_status"@.len());
    assert("start_presentation"@.len() != "get_session"@.len());
    assert("start_presentation"@.len() != "logout"@.len());
    lemma_missing_char("start_presentation"@, "entity"@, 5);
    lemma_missing_char("start_presentation"@, "member"@, 0);
    assert("start_presentation"@.len() != "join_entity"@.len());
    lemma_missing_char("start_presentation"@, "message"@, 0);
    lemma_missing_char("start_presentation"@, "thread"@, 1);
    lemma_missing_char("start_presentation"@, "reaction"@, 3);
    assert("start_presentation"@.len() != "get_unread_count"@.len());
    lemma_missing_char("start_presentation"@, "file"@, 0);
    assert("start_presentation"@.len() != "get_disk_stats"@.len());
    lemma_missing_char("start_presentation"@, "upload"@, 0);
    lemma_missing_char("start_presentation"@, "kanban"@, 0);
    lemma_missing_char("start_presentation"@, "card"@, 0);
    lemma_missing_char("start_presentation"@, "column"@, 0);
    lemma_missing_char("start_presentation"@, "board"@, 0);
    lemma_missing_pair("start_presentation"@, "step"@, 1);
    lemma_missing_char("start_presentation"@, "tag"@, 2);
    lemma_prefix_mismatch("start_presentation"@, "network_"@, 0);
    lemma_prefix_mismatch("start_presentation"@, "dht_"@, 0);
    lemma_missing_char("start_presentation"@, "metrics"@, 0);
    lemma_missing_char("start_presentation"@, "trust"@, 2);
    lemma_missing_char("start_presentation"@, "placement"@, 1);
    lemma_missing_char("start_presentation"@, "presence"@, 6);
    assert("start_presentation"@.subrange(6, 18) =~= "presentation"@);
    assert(occurs_at("start_presentation"@, "presentation"@, 6));
}

/// The name `start_voice_call` falls in Social.
proof fn lemma_tool_start_voice_call()
    ensures
        category_of("start_voice_call"@) == McpToolCategory::Social,
{
    reveal_strlit("start_voice_call");
    reveal_strlit("authenticate");
    reveal_strlit("create_vault");
    reveal_strlit("list_vault");
    reveal_strlit("delete_vault");
    reveal_strlit("import_vault");
    reveal_strlit("export_vault");
    reveal_strlit("health_check");
    reveal_strlit("core_status");
    reveal_strlit("get_session");
    reveal_strlit("logout");
    reveal_strlit("entity");
    reveal_strlit("member");
    reveal_strlit("join_entity");
    reveal_strlit("message");
    reveal_strlit("thread");
    reveal_strlit("reaction");
    reveal_strlit("get_unread_count");
    reveal_strlit("file");
    reveal_strlit("get_disk_stats");
    reveal_strlit("upload");
    reveal_strlit("kanban");
    reveal_strlit("card");
    reveal_strlit("column");
    reveal_strlit("board");
    reveal_strlit("step");
    reveal_strlit("tag");
    reveal_strlit("network_");
    reveal_strlit("dht_");
    reveal_strlit("metrics");
    reveal_strlit("trust");
    reveal_strlit("placement");
    reveal_strlit("presence");
    reveal_strlit("call");
    lemma_prefix_mismatch("start_voice_call"@, "authenticate"@, 0);
    lemma_prefix_mismatch("start_voice_call"@, "create_vault"@, 0);
    lemma_prefix_mismatch("start_voice_call"@, "list_vault"@, 0);
    lemma_prefix_mismatch("start_voice_call"@, "delete_vault"@, 0);
    lemma_prefix_mismatch("start_voice_call"@, "import_vault"@, 0);
    lemma_prefix_mismatch("start_voice_call"@, "export_vault"@, 0);
    assert("start_voice_call"@.len() != "health_check"@.len());
    assert("start_voice_call"@.len() != "core_status"@.len());
    assert("start_voice_call"@.len() != "get_session"@.len());
    assert("start_voice_call"@.len() != "logout"@.len());
    lemma_missing_char("start_voice_call"@, "entity"@, 1);
    lemma_missing_char("start_voice_call"@, "member"@, 0);
    assert("start_voice_call"@.len() != "join_entity"@.len());
    lemma_missing_char("start_voice_call"@, "message"@, 0);
    lemma_missing_char("start_voice_call"@, "thread"@, 1);
    lemma_missing_char("start_voice_call"@, "reaction"@, 7);
    assert("start_voice_call"@[0] != "get_unread_count"@[0]);
    lemma_missing_char("start_voice_call"@, "file"@, 0);
    assert("start_voice_call"@.len() != "get_disk_stats"@.len());
    lemma_missing_char("start_voice_call"@, "upload"@, 0);
    lemma_missing_char("start_voice_call"@, "kanban"@, 0);
    lemma_missing_char("start_voice_call"@, "card"@, 3);
    lemma_missing_char("start_voice_call"@, "column"@, 3);
    lemma_missing_char("start_voice_call"@, "board"@, 0);
    lemma_missing_char("start_voice_call"@, "step"@, 3);
    lemma_missing_char("start_voice_call"@, "tag"@, 2);
    lemma_prefix_mismatch("start_voice_call"@, "network_"@, 0);
    lemma_prefix_mismatch("start_voice_call"@, "dht_"@, 0);
    lemma_missing_char("start_voice_call"@, "metrics"@, 0);
    lemma_missing_char("start_voice_call"@, "trust"@, 2);
    lemma_missing_char("start_voice_call"@, "placement"@, 0);
    lemma_missing_char("start_voice_call"@, "presence"@, 0);
    assert("start_voice_call"@.subrange(12, 16) =~= "call"@);
    assert(occurs_at("start_voice_call"@, "call"@, 12));
}

/// The name `join_call` falls in Social.
proof fn lemma_tool_join_call()
    ensures
        category_of("join_call"@) == McpToolCategory::Social,
{
    reveal_strlit("join_call");
    reveal_strlit("authenticate");
    reveal_strlit("create_vault");
    reveal_strlit("list_vault");
    reveal_strlit("delete_vault");
    reveal_strlit("import_vault");
    reveal_strlit("export_vault");
    reveal_strlit("health_check");
    reveal_strlit("core_status");
    reveal_strlit("get_session");
    reveal_strlit("logout");
    reveal_strlit("entity");
    reveal_strlit("member");
    reveal_strlit("join_entity");
    reveal_strlit("message");
    reveal_strlit("thread");
    reveal_strlit("reaction");
    reveal_strlit("get_unread_count");
    reveal_strlit("file");
    reveal_strlit("get_disk_stats");
    reveal_strlit("upload");
    reveal_strlit("kanban");
    reveal_strlit("card");
    reveal_strlit("column");
    reveal_strlit("board");
    reveal_strlit("step");
    reveal_strlit("tag");
    reveal_strlit("network_");
    reveal_strlit("dht_");
    reveal_strlit("metrics");
    reveal_strlit("trust");
    reveal_strlit("placement");
    reveal_strlit("presence");
    reveal_strlit("call");
    assert("join_call"@.len() != "health_check"@.len());
    assert("join_call"@.len() != "core_status"@.len());
    assert("join_call"@.len() != "get_session"@.len());
    assert("join_call"@.len() != "logout"@.len());
    lemma_missing_char("join_call"@, "entity"@, 0);
    lemma_missing_char("join_call"@, "member"@, 0);
    assert("join_call"@.len() != "join_entity"@.len());
    lemma_missing_char("join_call"@, "message"@, 0);
    lemma_missing_char("join_call"@, "thread"@, 0);
    lemma_missing_char("join_call"@, "reaction"@, 0);
    assert("join_call"@.len() != "get_unread_count"@.len());
    lemma_missing_char("join_call"@, "file"@, 0);
    assert("join_call"@.len() != "get_disk_stats"@.len());
    lemma_missing_char("join_call"@, "upload"@, 0);
    lemma_missing_char("join_call"@, "kanban"@, 0);
    lemma_missing_char("join_call"@, "card"@, 2);
    lemma_missing_char("join_call"@, "column"@, 3);
    lemma_missing_char("join_call"@, "board"@, 0);
    lemma_missing_char("join_call"@, "step"@, 0);
    lemma_missing_char("join_call"@, "tag"@, 0);
    lemma_prefix_mismatch("join_call"@, "network_"@, 0);
    lemma_prefix_mismatch("join_call"@, "dht_"@, 0);
    lemma_missing_char("join_call"@, "metrics"@, 0);
    lemma_missing_char("join_call"@, "trust"@, 0);
    lemma_missing_char("join_call"@, "placement"@, 0);
    lemma_missing_char("join_call"@, "presence"@, 0);
    assert("join_call"@.subrange(5, 9) =~= "call"@);
    assert(occurs_at("join_call"@, "call"@, 5));
}

/// The name `end_call` falls in Social.
proof fn lemma_tool_end_call()
    ensures
        category_of("end_call"@) == McpToolCategory::Social,
{
    reveal_strlit("end_call");
    reveal_strlit("authenticate");
    reveal_strlit("create_vault");
    reveal_strlit("list_vault");
    reveal_strlit("delete_vault");
    reveal_strlit("import_vault");
    reveal_strlit("export_vault");
    reveal_strlit("health_check");
    reveal_strlit("core_status");
    reveal_strlit("get_session");
    reveal_strlit("logout");
    reveal_strlit("entity");
    reveal_strlit("member");
    reveal_strlit("join_entity");
    reveal_strlit("message");
    reveal_strlit("thread");
    reveal_strlit("reaction");
    reveal_strlit("get_unread_count");
    reveal_strlit("file");
    reveal_strlit("get_disk_stats");
    reveal_strlit("upload");
    reveal_strlit("kanban");
    reveal_strlit("card");
    reveal_strlit("column");
    reveal_strlit("board");
    reveal_strlit("step");
    reveal_strlit("tag");
    reveal_strlit("network_");
    reveal_strlit("dht_");
    reveal_strlit("metrics");
    reveal_strlit("trust");
    reveal_strlit("placement");
    reveal_strlit("presence");
    reveal_strlit("call");
    assert("end_call"@.len() != "health_check"@.len());
    assert("end_call"@.len() != "core_status"@.len());
    assert("end_call"@.len() != "get_session"@.len());
    assert("end_call"@.len() != "logout"@.len());
    lemma_missing_char("end_call"@, "entity"@, 2);
    lemma_missing_char("end_call"@, "member"@, 0);
    assert("end_call"@.len() != "join_entity"@.len());
    lemma_missing_char("end_call"@, "message"@, 0);
    lemma_missing_char("end_call"@, "thread"@, 0);
    lemma_missing_char("end_call"@, "reaction"@, 0);
    assert("end_call"@.len() != "get_unread_count"@.len());
    lemma_missing_char("end_call"@, "file"@, 0);
    assert("end_call"@.len() != "get_disk_stats"@.len());
    lemma_missing_char("end_call"@, "upload"@, 0);
    lemma_missing_char("end_call"@, "kanban"@, 0);
    lemma_missing_char("end_call"@, "card"@, 2);
    lemma_missing_char("end_call"@, "column"@, 1);
    lemma_missing_char("end_call"@, "board"@, 0);
    lemma_missing_char("end_call"@, "step"@, 0);
    lemma_missing_char("end_call"@, "tag"@, 0);
    lemma_prefix_mismatch("end_call"@, "network_"@, 0);
    lemma_prefix_mismatch("end_call"@, "dht_"@, 0);
    lemma_missing_char("end_call"@, "metrics"@, 0);
    lemma_missing_char("end_call"@, "trust"@, 0);
    lemma_missing_char("end_call"@, "placement"@, 0);
    lemma_missing_char("end_call"@, "presence"@, 0);
    assert("end_call"@.subrange(4, 8) =~= "call"@);
    assert(occurs_at("end_call"@, "call"@, 4));
}

/// The tools listed under Auth fall where [`lemma_catalogue_categories`]
/// says.
proof fn lemma_auth_tools(k: int)
    requires
        0 <= k < tool_table(McpToolCategory::Auth).len(),
    ensures
        category_of(tool_table(McpToolCategory::Auth)[k].0) == match listed_elsewhere(McpToolCategory::Auth, k) {
            Some(o) => o,
            None => McpToolCategory::Auth,
        },
{
    if k == 0 {
        lemma_tool_authenticate();
        assert(tool_table(McpToolCategory::Auth)[k].0 == "authenticate"@);
    } else if k == 1 {
        lemma_tool_create_vault();
        assert(tool_table(McpToolCategory::Auth)[k].0 == "create_vault"@);
    } else if k == 2 {
        lemma_tool_authenticate_token();
        assert(tool_table(McpToolCategory::Auth)[k].0 == "authenticate_token"@);
    } else if k == 3 {
        lemma_tool_health_check();
        assert(tool_table(McpToolCategory::Auth)[k].0 == "health_check"@);
    } else if k == 4 {
        lemma_tool_core_status();
        assert(tool_table(McpToolCategory::Auth)[k].0 == "core_status"@);
    } else if k == 5 {
        lemma_tool_list_vaults();
        assert(tool_table(McpToolCategory::Auth)[k].0 == "list_vaults"@);
    } else if k == 6 {
        lemma_tool_delete_vault();
        assert(tool_table(McpToolCategory::Auth)[k].0 == "delete_vault"@);
    } else if k == 7 {
        lemma_tool_import_vault();
        assert(tool_table(McpToolCategory::Auth)[k].0 == "import_vault"@);
    }
}

/// The tools listed under Entities fall where [`lemma_catalogue_categories`]
/// says.
proof fn lemma_entities_tools(k: int)
    requires
        0 <= k < tool_table(McpToolCategory::Entities).len(),
    ensures
        category_of(tool_table(McpToolCategory::Entities)[k].0) == match listed_elsewhere(McpToolCategory::Entities, k) {
            Some(o) => o,
            None => McpToolCategory::Entities,
        },
{
    if k == 0 {
        lemma_tool_create_entity();
        assert(tool_table(McpToolCategory::Entities)[k].0 == "create_entity"@);
    } else if k == 1 {
        lemma_tool_update_entity();
        assert(tool_table(McpToolCategory::Entities)[k].0 == "update_entity"@);
    } else if k == 2 {
        lemma_tool_delete_entity();
        assert(tool_table(McpToolCategory::Entities)[k].0 == "delete_entity"@);
    } else if k == 3 {
        lemma_tool_get_entity();
        assert(tool_table(McpToolCategory::Entities)[k].0 == "get_entity"@);
    } else if k == 4 {
        lemma_tool_list_entities();
        assert(tool_table(McpToolCategory::Entities)[k].0 == "list_entities"@);
    } else if k == 5 {
        lemma_tool_add_member();
        assert(tool_table(McpToolCategory::Entities)[k].0 == "add_member"@);
    } else if k == 6 {
        lemma_tool_remove_member();
        assert(tool_table(McpToolCategory::Entities)[k].0 == "remove_member"@);
    } else if k == 7 {
        lemma_tool_list_members();
        assert(tool_table(McpToolCategory::Entities)[k].0 == "list_members"@);
    } else if k == 8 {
        lemma_tool_join_entity();
        assert(tool_table(McpToolCategory::Entities)[k].0 == "join_entity"@);
    } else if k == 9 {
        lemma_tool_create_invite();
        assert(tool_table(McpToolCategory::Entities)[k].0 == "create_invite"@);
    } else if k == 10 {
        lemma_tool_accept_invite();
        assert(tool_table(McpToolCategory::Entities)[k].0 == "accept_invite"@);
    } else if k == 11 {
        lemma_tool_list_pending_invites();
        assert(tool_table(McpToolCategory::Entities)[k].0 == "list_pending_invites"@);
    } else if k == 12 {
        lemma_tool_get_profile();
        assert(tool_table(McpToolCategory::Entities)[k].0 == "get_profile"@);
    } else if k == 13 {
        lemma_tool_update_profile();
        assert(tool_table(McpToolCategory::Entities)[k].0 == "update_profile"@);
    } else if k == 14 {
        lemma_tool_create_delegate_token();
        assert(tool_table(McpToolCategory::Entities)[k].0 == "create_delegate_token"@);
    } else if k == 15 {
        lemma_tool_export_vault();
        assert(tool_table(McpToolCategory::Entities)[k].0 == "export_vault"@);
    }
}

/// The tools listed under Messages fall where [`lemma_catalogue_categories`]
/// says.
proof fn lemma_messages_tools(k: int)
    requires
        0 <= k < tool_table(McpToolCategory::Messages).len(),
    ensures
        category_of(tool_table(McpToolCategory::Messages)[k].0) == match listed_elsewhere(McpToolCategory::Messages, k) {
            Some(o) => o,
            None => McpToolCategory::Messages,
        },
{
    if k == 0 {
        lemma_tool_send_message();
        assert(tool_table(McpToolCategory::Messages)[k].0 == "send_message"@);
    } else if k == 1 {
        lemma_tool_delete_message();
        assert(tool_table(McpToolCategory::Messages)[k].0 == "delete_message"@);
    } else if k == 2 {
        lemma_tool_edit_message();
        assert(tool_table(McpToolCategory::Messages)[k].0 == "edit_message"@);
    } else if k == 3 {
        lemma_tool_get_messages();
        assert(tool_table(McpToolCategory::Messages)[k].0 == "get_messages"@);
    } else if k == 4 {
        lemma_tool_create_thread();
        assert(tool_table(McpToolCategory::Messages)[k].0 == "create_thread"@);
    } else if k == 5 {
        lemma_tool_get_thread_messages();
        assert(tool_table(McpToolCategory::Messages)[k].0 == "get_thread_messages"@);
    } else if k == 6 {
        lemma_tool_add_reaction();
        assert(tool_table(McpToolCategory::Messages)[k].0 == "add_reaction"@);
    } else if k == 7 {
        lemma_tool_remove_reaction();
        assert(tool_table(McpToolCategory::Messages)[k].0 == "remove_reaction"@);
    } else if k == 8 {
        lemma_tool_get_reactions();
        assert(tool_table(McpToolCategory::Messages)[k].0 == "get_reactions"@);
    } else if k == 9 {
        lemma_tool_create_custom_reaction();
        assert(tool_table(McpToolCategory::Messages)[k].0 == "create_custom_reaction"@);
    } else if k == 10 {
        lemma_tool_get_available_reactions();
        assert(tool_table(McpToolCategory::Messages)[k].0 == "get_available_reactions"@);
    } else if k == 11 {
        lemma_tool_get_unread_count();
        assert(tool_table(McpToolCategory::Messages)[k].0 == "get_unread_count"@);
    } else if k == 12 {
        lemma_tool_create_contact();
        assert(tool_table(McpToolCategory::Messages)[k].0 == "create_contact"@);
    } else if k == 13 {
        lemma_tool_list_contacts();
        assert(tool_table(McpToolCategory::Messages)[k].0 == "list_contacts"@);
    }
}

/// The tools listed under Files fall where [`lemma_catalogue_categories`]
/// says.
proof fn lemma_files_tools(k: int)
    requires
        0 <= k < tool_table(McpToolCategory::Files).len(),
    ensures
        category_of(tool_table(McpToolCategory::Files)[k].0) == match listed_elsewhere(McpToolCategory::Files, k) {
            Some(o) => o,
            None => McpToolCategory::Files,
        },
{
    if k == 0 {
        lemma_tool_write_file();
        assert(tool_table(McpToolCategory::Files)[k].0 == "write_file"@);
    } else if k == 1 {
        lemma_tool_read_file();
        assert(tool_table(McpToolCategory::Files)[k].0 == "read_file"@);
    } else if k == 2 {
        lemma_tool_list_files();
        assert(tool_table(McpToolCategory::Files)[k].0 == "list_files"@);
    } else if k == 3 {
        lemma_tool_delete_file();
        assert(tool_table(McpToolCategory::Files)[k].0 == "delete_file"@);
    } else if k == 4 {
        lemma_tool_get_disk_stats();
        assert(tool_table(McpToolCategory::Files)[k].0 == "get_disk_stats"@);
    } else if k == 5 {
        lemma_tool_upload_with_metadata();
        assert(tool_table(McpToolCategory::Files)[k].0 == "upload_with_metadata"@);
    }
}

/// The tools listed under Kanban fall where [`lemma_catalogue_categories`]
/// says.
proof fn lemma_kanban_tools(k: int)
    requires
        0 <= k < tool_table(McpToolCategory::Kanban).len(),
    ensures
        category_of(tool_table(McpToolCategory::Kanban)[k].0) == match listed_elsewhere(McpToolCategory::Kanban, k) {
            Some(o) => o,
            None => McpToolCategory::Kanban,
        },
{
    if k == 0 {
        lemma_tool_create_kanban_board();
        assert(tool_table(McpToolCategory::Kanban)[k].0 == "create_kanban_board"@);
    } else if k == 1 {
        lemma_tool_update_kanban_board();
        assert(tool_table(McpToolCategory::Kanban)[k].0 == "update_kanban_board"@);
    } else if k == 2 {
        lemma_tool_delete_kanban_board();
        assert(tool_table(McpToolCategory::Kanban)[k].0 == "delete_kanban_board"@);
    } else if k == 3 {
        lemma_tool_list_kanban_boards();
        assert(tool_table(McpToolCategory::Kanban)[k].0 == "list_kanban_boards"@);
    } else if k == 4 {
        lemma_tool_get_kanban_board();
        assert(tool_table(McpToolCategory::Kanban)[k].0 == "get_kanban_board"@);
    } else if k == 5 {
        lemma_tool_create_kanban_card();
        assert(tool_table(McpToolCategory::Kanban)[k].0 == "create_kanban_card"@);
    } else if k == 6 {
        lemma_tool_update_kanban_card();
        assert(tool_table(McpToolCategory::Kanban)[k].0 == "update_kanban_card"@);
    } else if k == 7 {
        lemma_tool_delete_kanban_card();
        assert(tool_table(McpToolCategory::Kanban)[k].0 == "delete_kanban_card"@);
    } else if k == 8 {
        lemma_tool_list_kanban_cards();
        assert(tool_table(McpToolCategory::Kanban)[k].0 == "list_kanban_cards"@);
    } else if k == 9 {
        lemma_tool_move_kanban_card();
        assert(tool_table(McpToolCategory::Kanban)[k].0 == "move_kanban_card"@);
    } else if k == 10 {
        lemma_tool_get_kanban_card();
        assert(tool_table(McpToolCategory::Kanban)[k].0 == "get_kanban_card"@);
    } else if k == 11 {
        lemma_tool_create_kanban_column();
        assert(tool_table(McpToolCategory::Kanban)[k].0 == "create_kanban_column"@);
    } else if k == 12 {
        lemma_tool_list_kanban_columns();
        assert(tool_table(McpToolCategory::Kanban)[k].0 == "list_kanban_columns"@);
    } else if k == 13 {
        lemma_tool_get_kanban_column();
        assert(tool_table(McpToolCategory::Kanban)[k].0 == "get_kanban_column"@);
    } else if k == 14 {
        lemma_tool_update_kanban_column();
        assert(tool_table(McpToolCategory::Kanban)[k].0 == "update_kanban_column"@);
    } else if k == 15 {
        lemma_tool_delete_kanban_column();
        assert(tool_table(McpToolCategory::Kanban)[k].0 == "delete_kanban_column"@);
    } else if k == 16 {
        lemma_tool_move_kanban_column();
        assert(tool_table(McpToolCategory::Kanban)[k].0 == "move_kanban_column"@);
    } else if k == 17 {
        lemma_tool_change_card_state();
        assert(tool_table(McpToolCategory::Kanban)[k].0 == "change_card_state"@);
    } else if k == 18 {
        lemma_tool_assign_user();
        assert(tool_table(McpToolCategory::Kanban)[k].0 == "assign_user"@);
    } else if k == 19 {
        lemma_tool_unassign_user();
        assert(tool_table(McpToolCategory::Kanban)[k].0 == "unassign_user"@);
    } else if k == 20 {
        lemma_tool_create_kanban_tag();
        assert(tool_table(McpToolCategory::Kanban)[k].0 == "create_kanban_tag"@);
    } else if k == 21 {
        lemma_tool_list_kanban_tags();
        assert(tool_table(McpToolCategory::Kanban)[k].0 == "list_kanban_tags"@);
    } else if k == 22 {
        lemma_tool_tag_card();
        assert(tool_table(McpToolCategory::Kanban)[k].0 == "tag_card"@);
    }
}

/// The tools listed under Network fall where [`lemma_catalogue_categories`]
/// says.
proof fn lemma_network_tools(k: int)
    requires
        0 <= k < tool_table(McpToolCategory::Network).len(),
    ensures
        category_of(tool_table(McpToolCategory::Network)[k].0) == match listed_elsewhere(McpToolCategory::Network, k) {
            Some(o) => o,
            None => McpToolCategory::Network,
        },
{
    if k == 0 {
        lemma_tool_network_start();
        assert(tool_table(McpToolCategory::Network)[k].0 == "network_start"@);
    } else if k == 1 {
        lemma_tool_network_stop();
        assert(tool_table(McpToolCategory::Network)[k].0 == "network_stop"@);
    } else if k == 2 {
        lemma_tool_network_status();
        assert(tool_table(McpToolCategory::Network)[k].0 == "network_status"@);
    } else if k == 3 {
        lemma_tool_network_connect();
        assert(tool_table(McpToolCategory::Network)[k].0 == "network_connect"@);
    } else if k == 4 {
        lemma_tool_network_disconnect();
        assert(tool_table(McpToolCategory::Network)[k].0 == "network_disconnect"@);
    } else if k == 5 {
        lemma_tool_network_peers();
        assert(tool_table(McpToolCategory::Network)[k].0 == "network_peers"@);
    } else if k == 6 {
        lemma_tool_network_request_external_address();
        assert(tool_table(McpToolCategory::Network)[k].0 == "network_request_external_address"@);
    } else if k == 7 {
        lemma_tool_get_connection_words();
        assert(tool_table(McpToolCategory::Network)[k].0 == "get_connection_words"@);
    } else if k == 8 {
        lemma_tool_connect_by_words();
        assert(tool_table(McpToolCategory::Network)[k].0 == "connect_by_words"@);
    } else if k == 9 {
        lemma_tool_announce_presence();
        assert(tool_table(McpToolCategory::Network)[k].0 == "announce_presence"@);
    } else if k == 10 {
        lemma_tool_query_presence();
        assert(tool_table(McpToolCategory::Network)[k].0 == "query_presence"@);
    } else if k == 11 {
        lemma_tool_get_our_presence();
        assert(tool_table(McpToolCategory::Network)[k].0 == "get_our_presence"@);
    } else if k == 12 {
        lemma_tool_get_cached_presence();
        assert(tool_table(McpToolCategory::Network)[k].0 == "get_cached_presence"@);
    } else if k == 13 {
        lemma_tool_dht_start();
        assert(tool_table(McpToolCategory::Network)[k].0 == "dht_start"@);
    } else if k == 14 {
        lemma_tool_dht_stop();
        assert(tool_table(McpToolCategory::Network)[k].0 == "dht_stop"@);
    } else if k == 15 {
        lemma_tool_dht_status();
        assert(tool_table(McpToolCategory::Network)[k].0 == "dht_status"@);
    } else if k == 16 {
        lemma_tool_dht_store();
        assert(tool_table(McpToolCategory::Network)[k].0 == "dht_store"@);
    } else if k == 17 {
        lemma_tool_dht_retrieve();
        assert(tool_table(McpToolCategory::Network)[k].0 == "dht_retrieve"@);
    } else if k == 18 {
        lemma_tool_dht_exists();
        assert(tool_table(McpToolCategory::Network)[k].0 == "dht_exists"@);
    } else if k == 19 {
        lemma_tool_dht_closest_peers();
        assert(tool_table(McpToolCategory::Network)[k].0 == "dht_closest_peers"@);
    } else if k == 20 {
        lemma_tool_dht_health_metrics();
        assert(tool_table(McpToolCategory::Network)[k].0 == "dht_health_metrics"@);
    } else if k == 21 {
        lemma_tool_dht_network_stats();
        assert(tool_table(McpToolCategory::Network)[k].0 == "dht_network_stats"@);
    } else if k == 22 {
        lemma_tool_security_metrics();
        assert(tool_table(McpToolCategory::Network)[k].0 == "security_metrics"@);
    } else if k == 23 {
        lemma_tool_trust_metrics();
        assert(tool_table(McpToolCategory::Network)[k].0 == "trust_metrics"@);
    } else if k == 24 {
        lemma_tool_placement_metrics();
        assert(tool_table(McpToolCategory::Network)[k].0 == "placement_metrics"@);
    } else if k == 25 {
        lemma_tool_metrics_summary();
        assert(tool_table(McpToolCategory::Network)[k].0 == "metrics_summary"@);
    }
}

/// The tools listed under Social fall where [`lemma_catalogue_categories`]
/// says.
proof fn lemma_social_tools(k: int)
    requires
        0 <= k < tool_table(McpToolCategory::Social).len(),
    ensures
        category_of(tool_table(McpToolCategory::Social)[k].0) == match listed_elsewhere(McpToolCategory::Social, k) {
            Some(o) => o,
            None => McpToolCategory::Social,
        },
{
    if k == 0 {
        lemma_tool_create_poll();
        assert(tool_table(McpToolCategory::Social)[k].0 == "create_poll"@);
    } else if k == 1 {
        lemma_tool_vote_in_poll();
        assert(tool_table(McpToolCategory::Social)[k].0 == "vote_in_poll"@);
    } else if k == 2 {
        lemma_tool_create_story();
        assert(tool_table(McpToolCategory::Social)[k].0 == "create_story"@);
    } else if k == 3 {
        lemma_tool_get_media_metadata();
        assert(tool_table(McpToolCategory::Social)[k].0 == "get_media_metadata"@);
    } else if k == 4 {
        lemma_tool_share_location();
        assert(tool_table(McpToolCategory::Social)[k].0 == "share_location"@);
    } else if k == 5 {
        lemma_tool_share_screen();
        assert(tool_table(McpToolCategory::Social)[k].0 == "share_screen"@);
    } else if k == 6 {
        lemma_tool_start_presentation();
        assert(tool_table(McpToolCategory::Social)[k].0 == "start_presentation"@);
    } else if k == 7 {
        lemma_tool_start_voice_call();
        assert(tool_table(McpToolCategory::Social)[k].0 == "start_voice_call"@);
    } else if k == 8 {
        lemma_tool_join_call();
        assert(tool_table(McpToolCategory::Social)[k].0 == "join_call"@);
    } else if k == 9 {
        lemma_tool_end_call();
        assert(tool_table(McpToolCategory::Social)[k].0 == "end_call"@);
    }
}

/// Each tool of the catalogue falls, by its name, in the category that
/// lists it, but for those that [`listed_elsewhere`] names, which fall in
/// the category given there.
pub proof fn lemma_catalogue_categories(c: McpToolCategory, k: int)
    requires
        0 <= k < tool_table(c).len(),
    ensures
        category_of(tool_table(c)[k].0) == match listed_elsewhere(c, k) {
            Some(o) => o,
            None => c,
        },
{
    match c {
        McpToolCategory::Auth => lemma_auth_tools(k),
        McpToolCategory::Entities => lemma_entities_tools(k),
        McpToolCategory::Messages => lemma_messages_tools(k),
        McpToolCategory::Files => lemma_files_tools(k),
        McpToolCategory::Kanban => lemma_kanban_tools(k),
        McpToolCategory::Network => lemma_network_tools(k),
        McpToolCategory::Social => lemma_social_tools(k),
    }
}

} // verus!
