//! The dispatcher: which transfers a batch of changed paths calls for, one
//! for each pair of a path and a target, each prepared on its own.

use vstd::prelude::*;
use crate::config::{AppConfig, TargetConfig};
use crate::ignore::{texts, IgnoreMatcher};
use crate::paths::{relative_path, relative_spec};
use crate::watch::{files_of, regular_files, Candidate};
use crate::wire::{
    header_of, json_object_text, metadata_fits, metadata_key, parse_spec, transfer_header,
    ProtocolError, TransferError,
};

verus! {

/// One transfer, ready to be carried out: connect to `host:port`, write the
/// header, then the bytes of the file at `source`, then close.
#[derive(Debug, Clone, PartialEq, Eq)]
pub struct Outgoing {
    /// The absolute path of the file to read.
    pub source: String,
    pub host: String,
    pub port: u16,
    /// The length prefix and the metadata block.
    pub header: Vec<u8>,
}

/// Whether `prepared` is what the transfer of `path` to `target` calls for:
/// the transfer itself, or, exactly when the metadata block is too long for
/// its length prefix, the failure to encode it.
pub open spec fn prepared_for(
    prepared: Result<Outgoing, TransferError>,
    path: Seq<char>,
    target: TargetConfig,
    watch_root: Seq<char>,
) -> bool {
    &&& prepared is Ok <==> metadata_fits(relative_spec(path, watch_root))
    &&& match prepared {
        Ok(outgoing) => {
            &&& outgoing.source@ == path
            &&& outgoing.host@ == target.host@
            &&& outgoing.port == target.spec_port()
            &&& outgoing.header@ == header_of(
                json_object_text(metadata_key(), relative_spec(path, watch_root)),
            )
            &&& forall|payload: Seq<u8>| #[trigger]
                parse_spec(outgoing.header@ + payload) == Ok::<_, ProtocolError>(
                    (relative_spec(path, watch_root), payload),
                )
        },
        Err(e) => e == TransferError::Serialization,
    }
}

/// Prepares the transfer of one file to one target.
///
/// Succeeds unless the metadata block is too long for its length prefix.
/// The header carries the path relative to the watch root; whatever the
/// file holds, the receiver reads that path and those bytes from the header
/// followed by them.
pub fn prepare_send(path: &str, target: &TargetConfig, watch_root: &str) -> (r: Result<
    Outgoing,
    TransferError,
>)
    ensures
        prepared_for(r, path@, *target, watch_root@),
{
    let relative = relative_path(path, watch_root);
    match transfer_header(relative.as_str()) {
        Ok(header) => Ok(
            Outgoing {
                source: path.to_owned(),
                host: target.host.clone(),
                port: target.effective_port(),
                header,
            },
        ),
        Err(e) => Err(e),
    }
}

/// Prepares the transfers of one file to every target, in the targets'
/// order. Each stands on its own: none depends on another's outcome.
pub fn fan_out(path: &str, targets: &Vec<TargetConfig>, watch_root: &str) -> (r: Vec<
    Result<Outgoing, TransferError>,
>)
    ensures
        r@.len() == targets@.len(),
        forall|j: int|
            0 <= j < targets@.len() ==> prepared_for(
                #[trigger] r@[j],
                path@,
                targets@[j],
                watch_root@,
            ),
{
    let mut sends: Vec<Result<Outgoing, TransferError>> = Vec::new();
    let mut j: usize = 0;
    while j < targets.len()
        invariant
            j <= targets.len(),
            sends@.len() == j,
            forall|k: int|
                0 <= k < j ==> prepared_for(#[trigger] sends@[k], path@, targets@[k], watch_root@),
        decreases targets.len() - j,
    {
        sends.push(prepare_send(path, &targets[j], watch_root));
        j += 1;
    }
    sends
}

/// Whether `plan` is the plan for `paths` and `targets`: one row for each
/// path, in order, and in each row one transfer for each target, in order.
pub open spec fn is_plan_for(
    plan: Seq<Vec<Result<Outgoing, TransferError>>>,
    paths: Seq<Seq<char>>,
    targets: Seq<TargetConfig>,
    watch_root: Seq<char>,
) -> bool {
    &&& plan.len() == paths.len()
    &&& forall|i: int|
        0 <= i < paths.len() ==> (#[trigger] plan[i])@.len() == targets.len()
    &&& forall|i: int, j: int|
        0 <= i < paths.len() && 0 <= j < targets.len() ==> prepared_for(
            #[trigger] plan[i]@[j],
            paths[i],
            targets[j],
            watch_root,
        )
}

/// In the plan for a batch without repetitions, a path of the batch has
/// exactly one row, and that row holds one transfer for each target.
pub proof fn lemma_one_row_per_path(
    plan: Seq<Vec<Result<Outgoing, TransferError>>>,
    paths: Seq<Seq<char>>,
    targets: Seq<TargetConfig>,
    watch_root: Seq<char>,
    path: Seq<char>,
)
    requires
        is_plan_for(plan, paths, targets, watch_root),
        paths.no_duplicates(),
        paths.contains(path),
    ensures
        exists|i: int|
            {
                &&& 0 <= i < plan.len()
                &&& #[trigger] paths[i] == path
                &&& plan[i]@.len() == targets.len()
                &&& forall|k: int| 0 <= k < plan.len() && #[trigger] paths[k] == path ==> k == i
            },
{
    let i = choose|i: int| 0 <= i < paths.len() && paths[i] == path;
    assert(plan[i]@.len() == targets.len());
    assert(paths[i] == path);
}

/// Plans the transfers for a batch of changed paths: every path to every
/// target.
pub fn dispatch(batch: &Vec<String>, targets: &Vec<TargetConfig>, watch_root: &str) -> (r: Vec<
    Vec<Result<Outgoing, TransferError>>,
>)
    ensures
        is_plan_for(r@, texts(batch@), targets@, watch_root@),
{
    let mut plan: Vec<Vec<Result<Outgoing, TransferError>>> = Vec::new();
    let mut i: usize = 0;
    while i < batch.len()
        invariant
            i <= batch.len(),
            is_plan_for(plan@, texts(batch@).take(i as int), targets@, watch_root@),
        decreases batch.len() - i,
    {
        let row = fan_out(batch[i].as_str(), targets, watch_root);
        plan.push(row);
        i += 1;
    }
    assert(texts(batch@).take(i as int) =~= texts(batch@));
    plan
}

/// The paths that the ignore rules let through, in order.
pub open spec fn unignored(paths: Seq<Seq<char>>, matcher: IgnoreMatcher) -> Seq<Seq<char>>
    decreases paths.len(),
{
    if paths.len() == 0 {
        Seq::empty()
    } else if matcher.ignores(paths.last()) {
        unignored(paths.drop_last(), matcher)
    } else {
        unignored(paths.drop_last(), matcher).push(paths.last())
    }
}

/// A path is let through exactly when it is among the paths and not ignored.
pub proof fn lemma_unignored_holds(paths: Seq<Seq<char>>, matcher: IgnoreMatcher, path: Seq<char>)
    ensures
        unignored(paths, matcher).contains(path) <==> paths.contains(path) && !matcher.ignores(
            path,
        ),
    decreases paths.len(),
{
    if paths.len() > 0 {
        let front = paths.drop_last();
        let kept = unignored(front, matcher);
        lemma_unignored_holds(front, matcher, path);
        assert(paths =~= front.push(paths.last()));
        if paths.contains(path) {
            let k = choose|k: int| 0 <= k < paths.len() && paths[k] == path;
            if k < front.len() {
                assert(front[k] == path);
            }
        }
        if front.contains(path) {
            let k = choose|k: int| 0 <= k < front.len() && front[k] == path;
            assert(paths[k] == path);
        }
        if kept.contains(path) {
            let k = choose|k: int| 0 <= k < kept.len() && kept[k] == path;
            assert(kept.push(paths.last())[k] == path);
        }
        if !matcher.ignores(paths.last()) {
            assert(kept.push(paths.last())[kept.len() as int] == paths.last());
            assert(paths[paths.len() - 1] == paths.last());
        }
    }
}

/// No ignored file is sent: every transfer in the plan for the files that
/// the ignore rules let through reads a file that is among the files and is
/// not ignored.
pub proof fn lemma_plan_skips_ignored(
    plan: Seq<Vec<Result<Outgoing, TransferError>>>,
    files: Seq<Seq<char>>,
    matcher: IgnoreMatcher,
    targets: Seq<TargetConfig>,
    watch_root: Seq<char>,
    i: int,
    j: int,
)
    requires
        is_plan_for(plan, unignored(files, matcher), targets, watch_root),
        0 <= i < plan.len(),
        0 <= j < targets.len(),
        plan[i]@[j] is Ok,
    ensures
        !matcher.ignores(plan[i]@[j]->Ok_0.source@),
        files.contains(plan[i]@[j]->Ok_0.source@),
{
    let kept = unignored(files, matcher);
    assert(prepared_for(plan[i]@[j], kept[i], targets[j], watch_root));
    assert(kept.contains(kept[i]));
    lemma_unignored_holds(files, matcher, kept[i]);
}

/// Every file that is not ignored is sent to every target: it has a row in
/// the plan, with one transfer for each target.
pub proof fn lemma_plan_covers_unignored(
    plan: Seq<Vec<Result<Outgoing, TransferError>>>,
    files: Seq<Seq<char>>,
    matcher: IgnoreMatcher,
    targets: Seq<TargetConfig>,
    watch_root: Seq<char>,
    file: Seq<char>,
)
    requires
        is_plan_for(plan, unignored(files, matcher), targets, watch_root),
        files.contains(file),
        !matcher.ignores(file),
    ensures
        exists|i: int|
            {
                &&& 0 <= i < plan.len()
                &&& #[trigger] unignored(files, matcher)[i] == file
                &&& plan[i]@.len() == targets.len()
            },
{
    let kept = unignored(files, matcher);
    lemma_unignored_holds(files, matcher, file);
    let i = choose|i: int| 0 <= i < kept.len() && kept[i] == file;
    assert(plan[i]@.len() == targets.len());
    assert(kept[i] == file);
}

/// Drops the ignored paths, keeping the others in order.
pub fn select_unignored(paths: &Vec<String>, matcher: &IgnoreMatcher) -> (r: Vec<String>)
    ensures
        texts(r@) == unignored(texts(paths@), *matcher),
{
    let mut kept: Vec<String> = Vec::new();
    let mut i: usize = 0;
    while i < paths.len()
        invariant
            i <= paths.len(),
            texts(kept@) == unignored(texts(paths@).take(i as int), *matcher),
        decreases paths.len() - i,
    {
        assert(texts(paths@).take(i as int + 1).drop_last() =~= texts(paths@).take(i as int));
        let ghost before = texts(kept@);
        if !matcher.matches(paths[i].as_str()) {
            kept.push(paths[i].clone());
            assert(texts(kept@) =~= before.push(paths@[i as int]@));
        }
        i += 1;
    }
    assert(texts(paths@).take(i as int) =~= texts(paths@));
    kept
}

/// Plans the initial sync: of what was found under the watch root, every
/// regular file that is not ignored goes to every target; directories and
/// ignored files go nowhere.
pub fn initial_sync(cfg: &AppConfig, found: &Vec<Candidate>, matcher: &IgnoreMatcher) -> (r: Vec<
    Vec<Result<Outgoing, TransferError>>,
>)
    ensures
        is_plan_for(
            r@,
            unignored(files_of(found@), *matcher),
            cfg.targets@,
            cfg.general.watch_dir@,
        ),
{
    let files = regular_files(found);
    let kept = select_unignored(&files, matcher);
    dispatch(&kept, &cfg.targets, cfg.general.watch_dir.as_str())
}

} // verus!
