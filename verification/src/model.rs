//! What a lookup does to the cache, stated over a model of its driver.
//!
//! The model is a driver whose disk works: the cache directory can be made,
//! a file that exists can be read, and a write stores what it was given. The
//! origin is whatever event a fetch ends in.

use crate::artifact::{lemma_decode_inverts_encode, storable, ArtifactView};
use crate::cache::{next, ActionView, EventView, LookupView, PhaseView};
use crate::endpoint::{reply_of, sendable};
use crate::error::{ErrorKind, IconErrorView};
use crate::request::{resolved, TargetView};
use vstd::prelude::*;

verus! {

/// The cache directory, the origin, and how often the origin was asked.
pub struct World {
    /// The files of the cache directory, by name.
    pub files: Map<Seq<char>, Seq<u8>>,
    /// The event that a fetch ends in.
    pub origin: EventView,
    /// The number of fetches so far.
    pub fetches: nat,
}

/// What performing an action reports, and the world after it.
pub open spec fn perform(action: ActionView, world: World) -> (EventView, World) {
    match action {
        ActionView::EnsureDirectory => (EventView::DirectoryReady, world),
        ActionView::Probe(name) => if world.files.contains_key(name) {
            (EventView::FilePresent, world)
        } else {
            (EventView::FileAbsent, world)
        },
        ActionView::Read(name) => if world.files.contains_key(name) {
            (EventView::ReadDone(world.files[name]), world)
        } else {
            (EventView::ReadFailed(Seq::empty()), world)
        },
        ActionView::Fetch(_) => (
            world.origin,
            World { files: world.files, origin: world.origin, fetches: world.fetches + 1 },
        ),
        ActionView::Write(name, data) => (
            EventView::Written,
            World {
                files: world.files.insert(name, data),
                origin: world.origin,
                fetches: world.fetches,
            },
        ),
        ActionView::Finish(_) => (EventView::Written, world),
    }
}

/// Runs a lookup from an action on, for at most `fuel` actions: its result,
/// if it finished, and the world it leaves.
pub open spec fn run(lookup: LookupView, action: ActionView, world: World, fuel: nat) -> (
    Option<Result<ArtifactView, IconErrorView>>,
    World,
)
    decreases fuel,
{
    match action {
        ActionView::Finish(outcome) => (Some(outcome), world),
        _ => if fuel == 0 {
            (None, world)
        } else {
            let (event, after) = perform(action, world);
            let (then, following) = next(lookup, event);
            run(then, following, after, (fuel - 1) as nat)
        },
    }
}

/// A whole lookup of a target in a world.
pub open spec fn lookup_run(target: TargetView, world: World) -> (
    Option<Result<ArtifactView, IconErrorView>>,
    World,
) {
    run(
        LookupView { target, phase: PhaseView::Directory },
        ActionView::EnsureDirectory,
        world,
        4,
    )
}

/// A whole request in a world: the artifact or the kind of error, and the
/// world it leaves. A request that is refused starts no lookup.
pub open spec fn serve(param: Seq<char>, world: World) -> (Result<ArtifactView, ErrorKind>, World) {
    match resolved(param) {
        Err(e) => (Err(e.kind), world),
        Ok(target) => {
            let (outcome, after) = lookup_run(target, world);
            match outcome {
                Some(Ok(a)) => (Ok(a), after),
                Some(Err(e)) => (Err(e.kind), after),
                None => (Err(ErrorKind::UnexpectedEvent), after),
            }
        },
    }
}

/// Whether an origin's event yields no artifact: it could not be reached,
/// its status lies outside 200..=299, or it sent no `content-type` header.
pub open spec fn origin_fails(origin: EventView) -> bool {
    match origin {
        EventView::Responded(status, content_type, _) => status < 200 || status > 299
            || content_type is None,
        EventView::Unreachable(_) => true,
        _ => false,
    }
}

/// A lookup finishes within four actions, asks the origin at most once, and
/// not at all where the file exists; a lookup that fails writes nothing.
pub proof fn lemma_lookup_finishes(target: TargetView, world: World)
    ensures
        lookup_run(target, world).0 is Some,
        lookup_run(target, world).1.fetches <= world.fetches + 1,
        world.files.contains_key(target.file_name) ==> lookup_run(target, world).1 == world,
        lookup_run(target, world).0.unwrap() is Err ==> lookup_run(target, world).1.files
            == world.files,
{
    reveal_with_fuel(run, 5);
}

/// After a lookup that gave an artifact, a second lookup of the same target
/// gives the same artifact, whatever the origin would now answer, without
/// asking the origin and without touching the files.
pub proof fn lemma_second_lookup_hits(target: TargetView, world: World, later: EventView)
    requires
        lookup_run(target, world).0 is Some,
        lookup_run(target, world).0.unwrap() is Ok,
        storable(lookup_run(target, world).0.unwrap()->Ok_0),
    ensures
        ({
            let (first, after) = lookup_run(target, world);
            let again = World { files: after.files, origin: later, fetches: after.fetches };
            let (second, last) = lookup_run(target, again);
            &&& second == first
            &&& last == again
            &&& after.fetches <= world.fetches + 1
        }),
{
    reveal_with_fuel(run, 5);
    let (first, after) = lookup_run(target, world);
    let a = first.unwrap()->Ok_0;
    lemma_decode_inverts_encode(a);
    if !world.files.contains_key(target.file_name) {
        assert(after.files.contains_key(target.file_name));
    }
}

/// A request whose parameter is not base64, or does not decode to an
/// absolute URL with a host, is answered with 400 and leaves the world as it
/// was: no file is made and the origin is not asked.
pub proof fn lemma_refused_request_changes_nothing(param: Seq<char>, world: World)
    requires
        resolved(param) is Err,
    ensures
        serve(param, world).0 is Err,
        serve(param, world).1 == world,
{
}

/// Where the file is absent and the origin fails, the lookup fails with the
/// origin's error and the files stay as they were.
pub proof fn lemma_failed_fetch_writes_nothing(target: TargetView, world: World)
    requires
        !world.files.contains_key(target.file_name),
        origin_fails(world.origin),
    ensures
        lookup_run(target, world).0 is Some,
        lookup_run(target, world).0.unwrap() is Err,
        lookup_run(target, world).1.files == world.files,
{
    reveal_with_fuel(run, 5);
}

/// Every error is answered with 400 and no `content-type`, and so is an
/// artifact whose MIME string cannot be sent; every other artifact with
/// 200, its MIME string and its bytes.
pub proof fn lemma_reply_status(outcome: Result<ArtifactView, IconErrorView>)
    ensures
        reply_of(outcome).status == 200 || reply_of(outcome).status == 400,
        reply_of(outcome).status == 200 <==> outcome is Ok && sendable(outcome->Ok_0.mime),
        reply_of(outcome).status == 400 ==> reply_of(outcome).content_type is None,
        reply_of(outcome).status == 200 ==> reply_of(outcome).content_type == Some(
            outcome->Ok_0.mime,
        ) && reply_of(outcome).body == outcome->Ok_0.bytes,
{
}

} // verus!
