//! The routing and URL laws the gateway promises, proved once and for
//! all paths. Each law is stated over the spec functions that the
//! executable functions' contracts use, so it carries directly to
//! `route`, `plan` and `build_target_url`.

use vstd::prelude::*;
use crate::router::{Target, target_of, rewritten_path, health_path, api_prefix, ai_prefix, ai_root};
use crate::forward::{sent_path, query_suffix, target_url};

verus! {

/// Every path that is not `/health`, has neither the `/api/` nor the
/// `/ai/` prefix, and is not the bare `/ai`, falls back to the API
/// target and is forwarded unchanged.
pub proof fn lemma_fallback_routes_to_api(path: Seq<u8>)
    requires
        path != health_path(),
        !api_prefix().is_prefix_of(path),
        !ai_prefix().is_prefix_of(path),
        path != ai_root(),
    ensures
        target_of(path) == Target::Api,
        rewritten_path(path) == path,
{
}

/// Every path with the `/api/` prefix routes to the API target and is
/// forwarded unchanged.
pub proof fn lemma_api_path_unchanged(path: Seq<u8>)
    requires
        api_prefix().is_prefix_of(path),
    ensures
        target_of(path) == Target::Api,
        rewritten_path(path) == path,
{
    assert(path.subrange(0, 5)[1] == path[1]);
    assert(path != health_path()) by {
        assert(api_prefix()[1] == 97u8);
        assert(health_path()[1] == 104u8);
    }
}

/// Every path with the `/ai/` prefix, and the bare path `/ai`, routes
/// to the AI target, and the forwarded path is the path with its
/// leading 3 bytes removed. For the bare `/ai` the forwarded path is
/// empty, and the forwarder sends it as `/`.
pub proof fn lemma_ai_path_stripped(path: Seq<u8>)
    requires
        ai_prefix().is_prefix_of(path) || path == ai_root(),
    ensures
        target_of(path) == Target::Ai,
        rewritten_path(path) == path.skip(3),
        path == ai_root() ==> rewritten_path(path).len() == 0,
        path == ai_root() ==> sent_path(rewritten_path(path)) == seq![47u8],
{
    if ai_prefix().is_prefix_of(path) {
        assert(path.subrange(0, 4)[1] == path[1]);
        assert(path.subrange(0, 4)[2] == path[2]);
        assert(path != health_path()) by {
            assert(ai_prefix()[2] == 105u8);
            assert(health_path()[2] == 101u8);
        }
        assert(!api_prefix().is_prefix_of(path)) by {
            assert(ai_prefix()[2] == 105u8);
            assert(api_prefix()[2] == 112u8);
            if api_prefix().is_prefix_of(path) {
                assert(path.subrange(0, 5)[2] == path[2]);
            }
        }
    } else {
        assert(path.len() == 3);
        assert(path != health_path()) by {
            assert(health_path().len() == 7);
        }
        assert(!api_prefix().is_prefix_of(path)) by {
            assert(api_prefix().len() == 5);
        }
        assert(rewritten_path(path) =~= Seq::<u8>::empty());
    }
}

/// A non-empty query string survives the URL construction
/// byte-for-byte: the destination URL is the base and the sent path,
/// then one `?`, then exactly the query bytes.
pub proof fn lemma_query_preserved(base: Seq<u8>, path: Seq<u8>, query: Seq<u8>)
    requires
        query.len() > 0,
    ensures
        target_url(base, path, query).len() == base.len() + sent_path(path).len() + 1
            + query.len(),
        target_url(base, path, query)[base.len() + sent_path(path).len() as int] == 63u8,
        target_url(base, path, query).skip(base.len() + sent_path(path).len() + 1 as int)
            == query,
{
    let u = target_url(base, path, query);
    let k: int = base.len() + sent_path(path).len() as int;
    assert(query_suffix(query) == seq![63u8] + query);
    assert(u[k] == 63u8);
    assert(u.skip(k + 1) =~= query);
}

/// An empty query string adds nothing: the destination URL is exactly
/// the base and the sent path, with no `?`.
pub proof fn lemma_empty_query_adds_nothing(base: Seq<u8>, path: Seq<u8>, query: Seq<u8>)
    requires
        query.len() == 0,
    ensures
        target_url(base, path, query) == base + sent_path(path),
{
    assert(target_url(base, path, query) =~= base + sent_path(path));
}

/// The exact path `/health` routes to the local health endpoint — it
/// is the only path that does, so every other path is forwarded to
/// some backend: routing is total.
pub proof fn lemma_health_only_local(path: Seq<u8>)
    ensures
        target_of(path) == Target::Health <==> path == health_path(),
{
}

} // verus!
