//! The router: a pure function from an inbound path to a target and a
//! forward path.
//!
//! Matching policy, first match wins:
//! 1. the exact path `/health` is answered locally;
//! 2. a path with prefix `/api/` goes to the API backend, unchanged;
//! 3. a path with prefix `/ai/`, or the bare path `/ai`, goes to the AI
//!    backend with its leading 3 bytes `/ai` removed (so `/ai/predict`
//!    becomes `/predict`, and the bare `/ai` becomes the empty path,
//!    which the forwarder later sends as `/`);
//! 4. every other path goes to the API backend, unchanged.
//!
//! Routing is total: no path is ever rejected, and the method plays no
//! part in the decision.

use vstd::prelude::*;
use crate::bytes::{eq_bytes, has_prefix, suffix_from};

verus! {

/// The backend a path routes to, or the local health endpoint.
#[derive(Clone, Copy, Debug, PartialEq, Eq, Structural)]
pub enum Target {
    /// Answered locally, never forwarded.
    Health,
    /// The application API backend (also the fallback for unmatched paths).
    Api,
    /// The AI inference backend.
    Ai,
}

/// The bytes of the health path, `/health`.
pub open spec fn health_path() -> Seq<u8> {
    seq![47u8, 104u8, 101u8, 97u8, 108u8, 116u8, 104u8]
}

/// The bytes of the API route prefix, `/api/`.
pub open spec fn api_prefix() -> Seq<u8> {
    seq![47u8, 97u8, 112u8, 105u8, 47u8]
}

/// The bytes of the AI route prefix, `/ai/`.
pub open spec fn ai_prefix() -> Seq<u8> {
    seq![47u8, 97u8, 105u8, 47u8]
}

/// The bytes of the bare AI path, `/ai`.
pub open spec fn ai_root() -> Seq<u8> {
    seq![47u8, 97u8, 105u8]
}

/// The target a path routes to, in the priority order of the policy.
pub open spec fn target_of(path: Seq<u8>) -> Target {
    if path == health_path() {
        Target::Health
    } else if api_prefix().is_prefix_of(path) {
        Target::Api
    } else if ai_prefix().is_prefix_of(path) || path == ai_root() {
        Target::Ai
    } else {
        Target::Api
    }
}

/// The path that is forwarded: unchanged, except that an AI-routed path
/// loses its leading 3 bytes `/ai`.
pub open spec fn rewritten_path(path: Seq<u8>) -> Seq<u8> {
    if target_of(path) == Target::Ai {
        path.skip(3)
    } else {
        path
    }
}

/// A routing decision: where the path goes, and as what.
pub struct RouteDecision {
    /// The chosen backend, or the local health endpoint.
    pub target: Target,
    /// The path to forward, after any rewrite.
    pub forward_path: Vec<u8>,
}

fn health_path_vec() -> (v: Vec<u8>)
    ensures
        v@ == health_path(),
{
    let v = vec![47u8, 104u8, 101u8, 97u8, 108u8, 116u8, 104u8];
    proof {
        assert(v@ =~= health_path());
    }
    v
}

fn api_prefix_vec() -> (v: Vec<u8>)
    ensures
        v@ == api_prefix(),
{
    let v = vec![47u8, 97u8, 112u8, 105u8, 47u8];
    proof {
        assert(v@ =~= api_prefix());
    }
    v
}

fn ai_prefix_vec() -> (v: Vec<u8>)
    ensures
        v@ == ai_prefix(),
{
    let v = vec![47u8, 97u8, 105u8, 47u8];
    proof {
        assert(v@ =~= ai_prefix());
    }
    v
}

fn ai_root_vec() -> (v: Vec<u8>)
    ensures
        v@ == ai_root(),
{
    let v = vec![47u8, 97u8, 105u8];
    proof {
        assert(v@ =~= ai_root());
    }
    v
}

/// Routes a path: picks the target by the matching policy and rewrites
/// the path where the route asks for it.
pub fn route(path: &Vec<u8>) -> (d: RouteDecision)
    ensures
        d.target == target_of(path@),
        d.forward_path@ == rewritten_path(path@),
{
    let health = health_path_vec();
    if eq_bytes(path, &health) {
        let forward_path = suffix_from(path, 0);
        proof {
            assert(path@.skip(0) =~= path@);
        }
        return RouteDecision { target: Target::Health, forward_path };
    }
    let api = api_prefix_vec();
    if has_prefix(path, &api) {
        let forward_path = suffix_from(path, 0);
        proof {
            assert(path@.skip(0) =~= path@);
        }
        return RouteDecision { target: Target::Api, forward_path };
    }
    let ai = ai_prefix_vec();
    let ai_bare = ai_root_vec();
    if has_prefix(path, &ai) || eq_bytes(path, &ai_bare) {
        let forward_path = suffix_from(path, 3);
        return RouteDecision { target: Target::Ai, forward_path };
    }
    let forward_path = suffix_from(path, 0);
    proof {
        assert(path@.skip(0) =~= path@);
    }
    RouteDecision { target: Target::Api, forward_path }
}

} // verus!
