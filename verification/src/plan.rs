//! From a listing to tasks: which remote files are fetched, and where each
//! of them goes.

use crate::listing::{lines, local_files};
use crate::options::{Mode, OptsView, SshOpts};
use crate::paths::{
    file_name, join, joined, last_component, path_eq, same_path, strip_prefix, stripped,
};
use crate::task::{task_views, TaskView, TransferTask};
use crate::text::{text_of, texts};
use vstd::prelude::*;

verus! {

/// The command that lists, on the remote host, the regular files below
/// `directory`.
pub open spec fn list_command_text(directory: Seq<char>) -> Seq<char> {
    "find "@ + directory + " -type f"@
}

/// The name under which a single file is written: its own, or `unknown`
/// where its path has none.
pub open spec fn name_or_unknown(name: Option<Seq<char>>) -> Seq<char> {
    match name {
        Some(name) => name,
        None => "unknown"@,
    }
}

/// Where a single remote file `source` is written: in `destination`, under
/// its own name.
pub open spec fn single_file_destination(destination: Seq<char>, source: Seq<char>) -> Seq<char> {
    joined(destination, name_or_unknown(last_component(source)))
}

/// Where the remote file `remote`, found below the directory `source`, is
/// written: at the same place below `destination`. `None` where `remote` is
/// not below `source`.
pub open spec fn mirrored(destination: Seq<char>, source: Seq<char>, remote: Seq<char>) -> Option<
    Seq<char>,
> {
    match stripped(remote, source) {
        Some(rest) => Some(joined(destination, rest)),
        None => None,
    }
}

/// Whether `path` is one of `existing`.
pub open spec fn present(existing: Seq<Seq<char>>, path: Seq<char>) -> bool {
    exists|j: int| 0 <= j < existing.len() && same_path(#[trigger] existing[j], path)
}

/// The local files that make a transfer skip their remote counterparts: those
/// of the local listing under [`Mode::Ignore`], none under [`Mode::Replace`].
pub open spec fn skipped_files(mode: Mode, local_listing: Option<Seq<char>>) -> Seq<Seq<char>> {
    match (mode, local_listing) {
        (Mode::Ignore, Some(listing)) => lines(listing),
        _ => Seq::empty(),
    }
}

/// Whether every file of `files` lies below `source`.
pub open spec fn all_below(source: Seq<char>, files: Seq<Seq<char>>) -> bool {
    forall|i: int| 0 <= i < files.len() ==> stripped(#[trigger] files[i], source) is Some
}

/// A listed file and its place in the destination.
#[derive(Debug, PartialEq, Eq)]
pub struct Placement {
    pub remote_path: String,
    /// Where the file goes, if it lies below the source directory.
    pub local_path: Option<String>,
    /// Whether a local file is at that place already.
    pub present: bool,
}

/// A [`Placement`] with the text of its paths.
pub struct PlacementView {
    pub remote_path: Seq<char>,
    pub local_path: Option<Seq<char>>,
    pub present: bool,
}

impl View for Placement {
    type V = PlacementView;

    open spec fn view(&self) -> PlacementView {
        PlacementView {
            remote_path: self.remote_path@,
            local_path: text_of(self.local_path),
            present: self.present,
        }
    }
}

/// The view of each placement of `placements`, in order.
pub open spec fn placement_views(placements: Seq<Placement>) -> Seq<PlacementView> {
    Seq::new(placements.len(), |i: int| placements[i]@)
}

/// The placement of a file found below `source`, for a transfer into
/// `destination` where the files `existing` are.
pub open spec fn placed(
    destination: Seq<char>,
    source: Seq<char>,
    existing: Seq<Seq<char>>,
) -> spec_fn(Seq<char>) -> PlacementView {
    |remote: Seq<char>|
        {
            let local_path = mirrored(destination, source, remote);
            PlacementView {
                remote_path: remote,
                local_path,
                present: match local_path {
                    Some(path) => present(existing, path),
                    None => false,
                },
            }
        }
}

/// The test for a file that is fetched: it has a place, and nothing is
/// there.
pub open spec fn is_missing() -> spec_fn(PlacementView) -> bool {
    |placement: PlacementView| placement.local_path is Some && !placement.present
}

/// The test for a file that is set aside: something is at its place.
pub open spec fn is_present_already() -> spec_fn(PlacementView) -> bool {
    |placement: PlacementView| placement.local_path is Some && placement.present
}

/// The test for a file that is rejected: it has no place.
pub open spec fn is_unplaced() -> spec_fn(PlacementView) -> bool {
    |placement: PlacementView| placement.local_path is None
}

/// The test for a listed path that does not lie below `source`.
pub open spec fn is_outside(source: Seq<char>) -> spec_fn(Seq<char>) -> bool {
    |remote: Seq<char>| stripped(remote, source) is None
}

/// The remote path of a placement.
pub open spec fn remote_of() -> spec_fn(PlacementView) -> Seq<char> {
    |placement: PlacementView| placement.remote_path
}

/// The task that fetches the file of a placement to its place.
pub open spec fn task_of(ssh_opts: OptsView, mode: Mode) -> spec_fn(PlacementView) -> TaskView {
    |placement: PlacementView|
        TaskView {
            remote_path: placement.remote_path,
            local_path: placement.local_path.unwrap(),
            ssh_opts,
            mode,
        }
}

/// The task that fetches `remote` from below `source` to its place below
/// `destination`.
pub open spec fn task_for(
    ssh_opts: OptsView,
    mode: Mode,
    destination: Seq<char>,
    source: Seq<char>,
) -> spec_fn(Seq<char>) -> TaskView {
    |remote: Seq<char>|
        TaskView {
            remote_path: remote,
            local_path: joined(destination, stripped(remote, source).unwrap()),
            ssh_opts,
            mode,
        }
}

/// What a directory transfer does with the files of a listing. Every listed
/// file is in exactly one of the three lists.
#[derive(Debug, PartialEq, Eq)]
pub struct Plan {
    /// One task for each file to fetch, in the order of the listing.
    pub tasks: Vec<TransferTask>,
    /// The remote files whose local counterparts exist, in the order of the
    /// listing: nothing is fetched for them.
    pub skipped: Vec<String>,
    /// The listed paths that have no place in the destination, in the order
    /// of the listing: their retrieval has failed before it began.
    pub rejected: Vec<String>,
}

/// A [`Plan`] with the views of its tasks and the text of its paths.
pub struct PlanView {
    pub tasks: Seq<TaskView>,
    pub skipped: Seq<Seq<char>>,
    pub rejected: Seq<Seq<char>>,
}

impl View for Plan {
    type V = PlanView;

    open spec fn view(&self) -> PlanView {
        PlanView {
            tasks: task_views(self.tasks@),
            skipped: texts(self.skipped@),
            rejected: texts(self.rejected@),
        }
    }
}

/// The plan for files that are placed. Each file with a place and nothing
/// there gets a task; a file with something at its place is set aside; a
/// file without a place is rejected. Each list is in the order of the
/// placements.
pub open spec fn plan_of(
    ssh_opts: OptsView,
    mode: Mode,
    placements: Seq<PlacementView>,
) -> PlanView {
    PlanView {
        tasks: placements.filter(is_missing()).map_values(task_of(ssh_opts, mode)),
        skipped: placements.filter(is_present_already()).map_values(remote_of()),
        rejected: placements.filter(is_unplaced()).map_values(remote_of()),
    }
}

/// What [`directory_plan`] returns: the plan for the placements of `files`.
pub open spec fn directory_planned(
    ssh_opts: OptsView,
    mode: Mode,
    source: Seq<char>,
    destination: Seq<char>,
    files: Seq<Seq<char>>,
    existing: Seq<Seq<char>>,
) -> PlanView {
    plan_of(ssh_opts, mode, files.map_values(placed(destination, source, existing)))
}

/// The command that lists, on the remote host, the regular files below
/// `directory`.
pub fn list_command(directory: &str) -> (command: String)
    ensures
        command@ == list_command_text(directory@),
{
    "find ".to_owned().concat(directory).concat(" -type f")
}

/// The local files that make a transfer skip their remote counterparts. Under
/// [`Mode::Replace`] there are none, whatever the listing holds; under
/// [`Mode::Ignore`] they are the lines of the local listing.
pub fn skip_set(mode: Mode, local_listing: &Option<String>) -> (existing: Vec<String>)
    ensures
        texts(existing@) == skipped_files(mode, text_of(*local_listing)),
{
    match (mode, local_listing) {
        (Mode::Ignore, Some(listing)) => local_files(listing.as_str()),
        _ => Vec::new(),
    }
}

/// Whether `path` is one of `existing`.
pub fn is_present(existing: &Vec<String>, path: &str) -> (found: bool)
    ensures
        found == present(texts(existing@), path@),
{
    let mut j: usize = 0;
    while j < existing.len()
        invariant
            j <= existing.len(),
            forall|k: int| 0 <= k < j ==> !same_path(#[trigger] texts(existing@)[k], path@),
        decreases existing.len() - j,
    {
        if path_eq(existing[j].as_str(), path) {
            assert(same_path(texts(existing@)[j as int], path@));
            return true;
        }
        j += 1;
    }
    false
}

/// Where the remote file `remote`, found below the directory `source`, is
/// written below `destination`; `None` where `remote` is not below `source`.
pub fn local_path(destination: &str, source: &str, remote: &str) -> (local: Option<String>)
    ensures
        text_of(local) == mirrored(destination@, source@, remote@),
{
    match strip_prefix(remote, source) {
        Some(rest) => Some(join(destination, rest.as_str())),
        None => None,
    }
}

/// The name under which a single file is written: its own, or `unknown`
/// where its path has none.
pub fn file_name_or_unknown(name: Option<String>) -> (chosen: String)
    ensures
        chosen@ == name_or_unknown(text_of(name)),
{
    match name {
        Some(name) => name,
        None => "unknown".to_owned(),
    }
}

/// The task for a source that is a single file: it is written into
/// `destination` under its own name, or as `unknown` where its path has no
/// last component.
pub fn single_file_task(ssh_opts: &SshOpts, mode: Mode, source: &str, destination: &str) -> (task:
    TransferTask)
    ensures
        task@ == (TaskView {
            remote_path: source@,
            local_path: single_file_destination(destination@, source@),
            ssh_opts: ssh_opts@,
            mode,
        }),
{
    let name = file_name_or_unknown(file_name(source));
    TransferTask {
        remote_path: source.to_owned(),
        local_path: join(destination, name.as_str()),
        ssh_opts: ssh_opts.clone(),
        mode,
    }
}

/// The placement of the file `remote` found below `source`, for a transfer
/// into `destination` where the files `existing` are.
pub fn place(destination: &str, source: &str, existing: &Vec<String>, remote: &str) -> (placement:
    Placement)
    ensures
        placement@ == placed(destination@, source@, texts(existing@))(remote@),
{
    let local_path = local_path(destination, source, remote);
    let present = match &local_path {
        Some(path) => is_present(existing, path.as_str()),
        None => false,
    };
    Placement { remote_path: remote.to_owned(), local_path, present }
}

/// Plans the transfer of files that are placed: a task for each file with a
/// place and nothing there, the files with something at their place set
/// aside, and the files without a place rejected, each list in the order of
/// `placements`. No file stops the others.
pub fn plan_placements(ssh_opts: &SshOpts, mode: Mode, placements: &Vec<Placement>) -> (plan: Plan)
    ensures
        plan@ == plan_of(ssh_opts@, mode, placement_views(placements@)),
        plan.tasks.len() + plan.skipped.len() + plan.rejected.len() == placements.len(),
{
    let ghost all = placement_views(placements@);
    let ghost make = task_of(ssh_opts@, mode);
    let mut tasks: Vec<TransferTask> = Vec::new();
    let mut skipped: Vec<String> = Vec::new();
    let mut rejected: Vec<String> = Vec::new();
    let mut i: usize = 0;
    proof {
        reveal(Seq::filter);
        assert(all.take(0) == Seq::<PlacementView>::empty());
        assert(task_views(tasks@) == all.take(0).filter(is_missing()).map_values(make));
        assert(texts(skipped@) == all.take(0).filter(is_present_already()).map_values(
            remote_of(),
        ));
        assert(texts(rejected@) == all.take(0).filter(is_unplaced()).map_values(remote_of()));
    }
    while i < placements.len()
        invariant
            i <= placements.len(),
            all == placement_views(placements@),
            make == task_of(ssh_opts@, mode),
            tasks.len() + skipped.len() + rejected.len() == i,
            task_views(tasks@) == all.take(i as int).filter(is_missing()).map_values(make),
            texts(skipped@) == all.take(i as int).filter(is_present_already()).map_values(
                remote_of(),
            ),
            texts(rejected@) == all.take(i as int).filter(is_unplaced()).map_values(remote_of()),
        decreases placements.len() - i,
    {
        let placement = &placements[i];
        let ghost before = all.take(i as int);
        let ghost tasks_before = tasks@;
        let ghost skipped_before = skipped@;
        let ghost rejected_before = rejected@;
        proof {
            assert(all[i as int] == placement@);
            assert(all.take(i + 1) == before.push(placement@));
            before.lemma_filter_push(placement@, is_missing());
            before.lemma_filter_push(placement@, is_present_already());
            before.lemma_filter_push(placement@, is_unplaced());
        }
        match &placement.local_path {
            None => {
                rejected.push(placement.remote_path.clone());
                assert(texts(rejected@) == texts(rejected_before).push(placement@.remote_path));
                assert(before.filter(is_unplaced()).push(placement@).map_values(remote_of())
                    == before.filter(is_unplaced()).map_values(remote_of()).push(
                    placement@.remote_path,
                ));
            },
            Some(local) => {
                if placement.present {
                    skipped.push(placement.remote_path.clone());
                    assert(texts(skipped@) == texts(skipped_before).push(placement@.remote_path));
                    assert(before.filter(is_present_already()).push(placement@).map_values(
                        remote_of(),
                    ) == before.filter(is_present_already()).map_values(remote_of()).push(
                        placement@.remote_path,
                    ));
                } else {
                    tasks.push(
                        TransferTask {
                            remote_path: placement.remote_path.clone(),
                            local_path: local.clone(),
                            ssh_opts: ssh_opts.clone(),
                            mode,
                        },
                    );
                    assert(task_views(tasks@) == task_views(tasks_before).push(make(placement@)));
                    assert(before.filter(is_missing()).push(placement@).map_values(make)
                        == before.filter(is_missing()).map_values(make).push(make(placement@)));
                }
            },
        }
        i += 1;
    }
    assert(all.take(i as int) == all);
    Plan { tasks, skipped, rejected }
}

/// Plans the transfer of a directory. Each of `files` that lies below
/// `source` and has no local counterpart among `existing` gets a task, which
/// writes to the place below `destination` that mirrors the place of the
/// remote file below `source`. A file whose counterpart exists is set aside.
/// A listed path that does not lie below `source` is rejected: it fails
/// alone, and the other files keep their tasks.
pub fn directory_plan(
    ssh_opts: &SshOpts,
    mode: Mode,
    source: &str,
    destination: &str,
    files: &Vec<String>,
    existing: &Vec<String>,
) -> (plan: Plan)
    ensures
        plan@ == directory_planned(
            ssh_opts@,
            mode,
            source@,
            destination@,
            texts(files@),
            texts(existing@),
        ),
        plan.tasks.len() + plan.skipped.len() + plan.rejected.len() == files.len(),
        plan@.rejected == texts(files@).filter(is_outside(source@)),
        forall|k: int|
            0 <= k < plan@.tasks.len() ==> mirrored(
                destination@,
                source@,
                (#[trigger] plan@.tasks[k]).remote_path,
            ) == Some(plan@.tasks[k].local_path),
{
    let ghost listed = texts(files@);
    let ghost put = placed(destination@, source@, texts(existing@));
    let mut placements: Vec<Placement> = Vec::new();
    let mut i: usize = 0;
    while i < files.len()
        invariant
            i <= files.len(),
            listed == texts(files@),
            put == placed(destination@, source@, texts(existing@)),
            placements.len() == i,
            placement_views(placements@) == listed.take(i as int).map_values(put),
        decreases files.len() - i,
    {
        let placement = place(destination, source, existing, files[i].as_str());
        let ghost before = placements@;
        placements.push(placement);
        proof {
            assert(listed[i as int] == files[i as int]@);
            assert(placement_views(placements@) == placement_views(before).push(placement@));
            assert(listed.take(i + 1) == listed.take(i as int).push(listed[i as int]));
            assert(listed.take(i + 1).map_values(put) == listed.take(i as int).map_values(
                put,
            ).push(put(listed[i as int])));
        }
        i += 1;
    }
    proof {
        assert(listed.take(i as int) == listed);
        lemma_rejected_lie_outside(
            ssh_opts@,
            mode,
            source@,
            destination@,
            listed,
            texts(existing@),
        );
        lemma_tasks_mirror(ssh_opts@, mode, source@, destination@, listed, texts(existing@));
    }
    plan_placements(ssh_opts, mode, &placements)
}

/// A test that holds of all of `items` keeps them all.
proof fn lemma_filter_all<A>(items: Seq<A>, keep: spec_fn(A) -> bool)
    requires
        forall|i: int| 0 <= i < items.len() ==> keep(#[trigger] items[i]),
    ensures
        items.filter(keep) == items,
    decreases items.len(),
{
    reveal(Seq::filter);
    if items.len() > 0 {
        let rest = items.drop_last();
        assert forall|i: int| 0 <= i < rest.len() implies keep(#[trigger] rest[i]) by {
            assert(rest[i] == items[i]);
        }
        lemma_filter_all(rest, keep);
        assert(keep(items.last()));
        assert(rest.push(items.last()) == items);
    }
}

/// A test that holds of none of `items` keeps none.
proof fn lemma_filter_none<A>(items: Seq<A>, keep: spec_fn(A) -> bool)
    requires
        forall|i: int| 0 <= i < items.len() ==> !keep(#[trigger] items[i]),
    ensures
        items.filter(keep) == Seq::<A>::empty(),
    decreases items.len(),
{
    reveal(Seq::filter);
    if items.len() > 0 {
        let rest = items.drop_last();
        assert forall|i: int| 0 <= i < rest.len() implies !keep(#[trigger] rest[i]) by {
            assert(rest[i] == items[i]);
        }
        lemma_filter_none(rest, keep);
        assert(!keep(items.last()));
    }
}

/// The rejected paths of a directory plan are the listed paths that do not
/// lie below the source directory, each of them once and in the order of the
/// listing; where all files lie below it, none is rejected.
pub proof fn lemma_rejected_lie_outside(
    ssh_opts: OptsView,
    mode: Mode,
    source: Seq<char>,
    destination: Seq<char>,
    files: Seq<Seq<char>>,
    existing: Seq<Seq<char>>,
)
    ensures
        directory_planned(ssh_opts, mode, source, destination, files, existing).rejected
            == files.filter(is_outside(source)),
        all_below(source, files) <==> directory_planned(
            ssh_opts,
            mode,
            source,
            destination,
            files,
            existing,
        ).rejected.len() == 0,
    decreases files.len(),
{
    reveal(Seq::filter);
    let put = placed(destination, source, existing);
    let outside = files.filter(is_outside(source));
    if files.len() > 0 {
        let rest = files.drop_last();
        let last = files.last();
        lemma_rejected_lie_outside(ssh_opts, mode, source, destination, rest, existing);
        assert(files.map_values(put) == rest.map_values(put).push(put(last)));
        rest.map_values(put).lemma_filter_push(put(last), is_unplaced());
        assert(rest.map_values(put).filter(is_unplaced()).push(put(last)).map_values(remote_of())
            == rest.map_values(put).filter(is_unplaced()).map_values(remote_of()).push(last));
        assert(rest.push(last) == files);
        rest.lemma_filter_push(last, is_outside(source));
    } else {
        assert(files.map_values(put) == Seq::<PlacementView>::empty());
        assert(Seq::<PlacementView>::empty().map_values(remote_of()) == Seq::<Seq<char>>::empty());
    }
    if all_below(source, files) {
        lemma_filter_none(files, is_outside(source));
    }
    if outside.len() == 0 {
        assert forall|i: int| 0 <= i < files.len() implies stripped(
            #[trigger] files[i],
            source,
        ) is Some by {
            if stripped(files[i], source) is None {
                files.lemma_filter_contains(is_outside(source), i);
            }
        }
    }
}

/// The directory structure of a plan. Every task of a directory plan fetches
/// one of the listed files, to the place below `destination` that mirrors
/// the place of that file below `source`; nothing is at that place yet; and
/// the task carries the options and the mode of the transfer.
pub proof fn lemma_tasks_mirror(
    ssh_opts: OptsView,
    mode: Mode,
    source: Seq<char>,
    destination: Seq<char>,
    files: Seq<Seq<char>>,
    existing: Seq<Seq<char>>,
)
    ensures
        forall|k: int|
            0 <= k < directory_planned(
                ssh_opts,
                mode,
                source,
                destination,
                files,
                existing,
            ).tasks.len() ==> {
                let task = #[trigger] directory_planned(
                    ssh_opts,
                    mode,
                    source,
                    destination,
                    files,
                    existing,
                ).tasks[k];
                &&& task.ssh_opts == ssh_opts
                &&& task.mode == mode
                &&& files.contains(task.remote_path)
                &&& !present(existing, task.local_path)
                &&& mirrored(destination, source, task.remote_path) == Some(task.local_path)
            },
{
    let placements = files.map_values(placed(destination, source, existing));
    let plan = directory_planned(ssh_opts, mode, source, destination, files, existing);
    let kept = placements.filter(is_missing());
    assert forall|k: int| 0 <= k < plan.tasks.len() implies {
        &&& (#[trigger] plan.tasks[k]).ssh_opts == ssh_opts
        &&& plan.tasks[k].mode == mode
        &&& files.contains(plan.tasks[k].remote_path)
        &&& !present(existing, plan.tasks[k].local_path)
        &&& mirrored(destination, source, plan.tasks[k].remote_path) == Some(
            plan.tasks[k].local_path,
        )
    } by {
        assert(plan.tasks[k] == task_of(ssh_opts, mode)(kept[k]));
        placements.lemma_filter_pred(is_missing(), k);
        assert(kept.contains(kept[k]));
        placements.lemma_filter_contains_rev(is_missing(), kept[k]);
        let j = choose|j: int| 0 <= j < placements.len() && placements[j] == kept[k];
        assert(placements[j] == placed(destination, source, existing)(files[j]));
    }
}

/// With no local file in the way, and so under [`Mode::Replace`] whatever
/// lies in the destination, every listed file that lies below the source is
/// fetched: where all of them do, each has its task, in the order of the
/// listing, and none is set aside or rejected.
pub proof fn lemma_replace_fetches_all(
    ssh_opts: OptsView,
    source: Seq<char>,
    destination: Seq<char>,
    files: Seq<Seq<char>>,
    local_listing: Option<Seq<char>>,
)
    requires
        all_below(source, files),
    ensures
        skipped_files(Mode::Replace, local_listing) == Seq::<Seq<char>>::empty(),
        directory_planned(
            ssh_opts,
            Mode::Replace,
            source,
            destination,
            files,
            skipped_files(Mode::Replace, local_listing),
        ) == (PlanView {
            tasks: files.map_values(task_for(ssh_opts, Mode::Replace, destination, source)),
            skipped: Seq::empty(),
            rejected: Seq::empty(),
        }),
{
    let existing = skipped_files(Mode::Replace, local_listing);
    let placements = files.map_values(placed(destination, source, existing));
    assert forall|i: int| 0 <= i < placements.len() implies {
        &&& (#[trigger] placements[i]).local_path is Some
        &&& !placements[i].present
    } by {
        assert(stripped(files[i], source) is Some);
    }
    lemma_filter_all(placements, is_missing());
    lemma_filter_none(placements, is_present_already());
    lemma_filter_none(placements, is_unplaced());
    assert(placements.map_values(task_of(ssh_opts, Mode::Replace)) == files.map_values(
        task_for(ssh_opts, Mode::Replace, destination, source),
    ));
    assert(Seq::<PlacementView>::empty().map_values(remote_of()) == Seq::<Seq<char>>::empty());
}

/// Where the local counterpart of every listed file exists, nothing is
/// fetched: there is no task, every file is set aside as skipped, and none
/// is rejected.
pub proof fn lemma_present_files_are_skipped(
    ssh_opts: OptsView,
    mode: Mode,
    source: Seq<char>,
    destination: Seq<char>,
    files: Seq<Seq<char>>,
    existing: Seq<Seq<char>>,
)
    requires
        forall|i: int|
            0 <= i < files.len() ==> match mirrored(destination, source, #[trigger] files[i]) {
                Some(local) => present(existing, local),
                None => false,
            },
    ensures
        directory_planned(ssh_opts, mode, source, destination, files, existing) == (PlanView {
            tasks: Seq::empty(),
            skipped: files,
            rejected: Seq::empty(),
        }),
{
    let placements = files.map_values(placed(destination, source, existing));
    assert forall|i: int| 0 <= i < placements.len() implies {
        &&& (#[trigger] placements[i]).local_path is Some
        &&& placements[i].present
    } by {
        assert(mirrored(destination, source, files[i]) is Some);
    }
    lemma_filter_none(placements, is_missing());
    lemma_filter_all(placements, is_present_already());
    lemma_filter_none(placements, is_unplaced());
    assert(Seq::<PlacementView>::empty().map_values(task_of(ssh_opts, mode)) == Seq::<
        TaskView,
    >::empty());
    assert(Seq::<PlacementView>::empty().map_values(remote_of()) == Seq::<Seq<char>>::empty());
    assert(placements.map_values(remote_of()) == files);
}

} // verus!
