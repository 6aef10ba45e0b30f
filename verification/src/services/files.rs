//! Atomic replacement of one file, as a plan of three steps, and a model of
//! the files on disk in which the plan is shown never to expose a half-written
//! document.

use crate::ids::is_hex_text;
use crate::services::layout::{
    is_segment, is_under, join, join_path, lemma_join_apart,
    lemma_temp_name_differs, lemma_temp_name_is_segment, lemma_tenant_owns_its_paths,
    checkin_file_name, lemma_tenants_apart, temp_name, temp_name_of, user_checkins_dir_of,
    user_dir_of,
};
use crate::text::has_suffix;
use vstd::prelude::*;

verus! {

/// The files on disk: what each path holds. Directories carry no content and
/// are left out.
pub type Files = Map<Seq<char>, Seq<u8>>;

/// One step that the caller carries out on disk.
pub enum FsStep {
    /// Create a directory and its parents; one that exists is left alone.
    CreateDirAll { path: Seq<char> },
    /// Write a file from its first byte on. A crash may leave any prefix.
    Write { path: Seq<char>, data: Seq<u8> },
    /// Move a file onto another path in one indivisible step.
    Rename { from: Seq<char>, to: Seq<char> },
}

/// `files` holds exactly `data` at `path`.
pub open spec fn holds(files: Files, path: Seq<char>, data: Seq<u8>) -> bool {
    files.dom().contains(path) && files[path] == data
}

/// `a` and `b` agree on `path`: both lack it, or both hold the same bytes.
pub open spec fn same_at(a: Files, b: Files, path: Seq<char>) -> bool {
    a.dom().contains(path) == b.dom().contains(path) && (a.dom().contains(path) ==> a[path]
        == b[path])
}

/// The files after one completed step.
pub open spec fn apply_step(files: Files, step: FsStep) -> Files {
    match step {
        FsStep::CreateDirAll { path } => files,
        FsStep::Write { path, data } => files.insert(path, data),
        FsStep::Rename { from, to } => if files.dom().contains(from) {
            files.remove(from).insert(to, files[from])
        } else {
            files
        },
    }
}

/// The files after all of `steps`, in order.
pub open spec fn run_steps(files: Files, steps: Seq<FsStep>) -> Files
    decreases steps.len(),
{
    if steps.len() == 0 {
        files
    } else {
        apply_step(run_steps(files, steps.drop_last()), steps.last())
    }
}

/// The files as a crash in the middle of `step` may leave them: a write has
/// put down only its first `k` bytes; the other steps are indivisible.
pub open spec fn torn(files: Files, step: FsStep, k: int) -> Files {
    match step {
        FsStep::Write { path, data } => if 0 <= k <= data.len() {
            files.insert(path, data.take(k))
        } else {
            files
        },
        _ => files,
    }
}

/// `seen` is a state that a reader may find while `steps` run from `files`,
/// or after they stopped at any point, by failure or crash: some `n` steps
/// are complete and the next one is untouched or torn.
pub open spec fn seen_during(files: Files, steps: Seq<FsStep>, seen: Files) -> bool {
    exists|n: int, k: int|
        0 <= n <= steps.len() && #[trigger] seen_at(files, steps, n, k) == seen
}

/// The state with `n` steps complete and step `n` torn at `k` (untouched
/// where `k` is negative or there is no such step).
pub open spec fn seen_at(files: Files, steps: Seq<FsStep>, n: int, k: int) -> Files {
    let done = run_steps(files, steps.take(n));
    if n < steps.len() {
        torn(done, steps[n], k)
    } else {
        done
    }
}

/// How one document is replaced: make sure of the directory, write the bytes
/// to a temporary file beside the target, move that file onto the target.
#[derive(Clone, Debug, PartialEq, Eq)]
pub struct WritePlan {
    pub dir: String,
    pub temp: String,
    pub dest: String,
    pub data: Vec<u8>,
}

pub struct WritePlanView {
    pub dir: Seq<char>,
    pub temp: Seq<char>,
    pub dest: Seq<char>,
    pub data: Seq<u8>,
}

impl View for WritePlan {
    type V = WritePlanView;

    open spec fn view(&self) -> WritePlanView {
        WritePlanView { dir: self.dir@, temp: self.temp@, dest: self.dest@, data: self.data@ }
    }
}

impl WritePlanView {
    /// The plan that puts `data` into the file `file` of the directory `dir`,
    /// by way of a temporary file named after `file` and `suffix`.
    pub open spec fn planned(
        dir: Seq<char>,
        file: Seq<char>,
        suffix: Seq<char>,
        data: Seq<u8>,
    ) -> WritePlanView {
        WritePlanView {
            dir,
            temp: join_path(dir, temp_name_of(file, suffix)),
            dest: join_path(dir, file),
            data,
        }
    }

    /// The steps of the plan, in the order in which they are carried out. The
    /// first failure ends the run; nothing is retried or cleaned up.
    pub open spec fn steps(self) -> Seq<FsStep> {
        seq![
            FsStep::CreateDirAll { path: self.dir },
            FsStep::Write { path: self.temp, data: self.data },
            FsStep::Rename { from: self.temp, to: self.dest },
        ]
    }
}

impl WritePlan {
    /// The plan that puts `data` into the file `file` of the directory `dir`.
    pub fn build(dir: &str, file: &str, suffix: &str, data: Vec<u8>) -> (plan: WritePlan)
        ensures
            plan@ == WritePlanView::planned(dir@, file@, suffix@, data@),
    {
        let temp_file = temp_name(file, suffix);
        WritePlan {
            dir: dir.to_owned(),
            temp: join(dir, temp_file.as_str()),
            dest: join(dir, file),
            data,
        }
    }
}

/// The states in which a plan's steps leave the files, step by step.
pub proof fn lemma_plan_states(files: Files, plan: WritePlanView)
    ensures
        run_steps(files, plan.steps().take(0)) == files,
        run_steps(files, plan.steps().take(1)) == files,
        run_steps(files, plan.steps().take(2)) == files.insert(plan.temp, plan.data),
        run_steps(files, plan.steps().take(3)) == files.insert(plan.temp, plan.data).remove(
            plan.temp,
        ).insert(plan.dest, plan.data),
        run_steps(files, plan.steps()) == run_steps(files, plan.steps().take(3)),
{
    let s = plan.steps();
    let s0 = s.take(0);
    let s1 = s.take(1);
    let s2 = s.take(2);
    let s3 = s.take(3);
    assert(s3 == s);
    assert(s1.drop_last() == s0);
    assert(s2.drop_last() == s1);
    assert(s3.drop_last() == s2);
    assert(run_steps(files, s0) == files);
    assert(s1.last() == s[0]);
    assert(run_steps(files, s1) == apply_step(run_steps(files, s0), s[0]));
    assert(s2.last() == s[1]);
    assert(run_steps(files, s2) == apply_step(run_steps(files, s1), s[1]));
    assert(s3.last() == s[2]);
    assert(run_steps(files, s3) == apply_step(run_steps(files, s2), s[2]));
}

/// Atomicity of one write. Whatever a reader finds at the target while the
/// plan runs, and whatever a failure or a crash at any point leaves there, is
/// either what the target held before or the complete new document.
pub proof fn lemma_atomic_write(files: Files, plan: WritePlanView, seen: Files)
    requires
        plan.temp != plan.dest,
        seen_during(files, plan.steps(), seen),
    ensures
        same_at(seen, files, plan.dest) || holds(seen, plan.dest, plan.data),
{
    lemma_plan_states(files, plan);
    let (n, k) = choose|n: int, k: int|
        0 <= n <= plan.steps().len() && #[trigger] seen_at(files, plan.steps(), n, k) == seen;
    assert(0 <= n <= 3);
    if n == 0 {
    } else if n == 1 {
    } else if n == 2 {
    } else {
    }
}

/// A plan that runs to its end leaves the new document at the target, takes
/// the temporary file away again, and touches no other path.
pub proof fn lemma_write_completes(files: Files, plan: WritePlanView)
    requires
        plan.temp != plan.dest,
    ensures
        holds(run_steps(files, plan.steps()), plan.dest, plan.data),
        !run_steps(files, plan.steps()).dom().contains(plan.temp),
        forall|p: Seq<char>|
            p != plan.dest && p != plan.temp ==> same_at(
                run_steps(files, plan.steps()),
                files,
                p,
            ),
{
    lemma_plan_states(files, plan);
}

/// A plan whose last step fails leaves the target as it was and the complete
/// document in the temporary file.
pub proof fn lemma_failed_rename_leaves_temp(files: Files, plan: WritePlanView)
    requires
        plan.temp != plan.dest,
    ensures
        same_at(run_steps(files, plan.steps().take(2)), files, plan.dest),
        holds(run_steps(files, plan.steps().take(2)), plan.temp, plan.data),
{
    lemma_plan_states(files, plan);
}

/// No state seen during a plan differs from the state before it at a path
/// other than the plan's two.
pub proof fn lemma_plan_touches_two_paths(
    files: Files,
    plan: WritePlanView,
    seen: Files,
    p: Seq<char>,
)
    requires
        seen_during(files, plan.steps(), seen),
        p != plan.temp,
        p != plan.dest,
    ensures
        same_at(seen, files, p),
{
    lemma_plan_states(files, plan);
    let (n, k) = choose|n: int, k: int|
        0 <= n <= plan.steps().len() && #[trigger] seen_at(files, plan.steps(), n, k) == seen;
    assert(0 <= n <= 3);
}

/// The files after each of `plans` ran to its end, in order.
pub open spec fn run_plans(files: Files, plans: Seq<WritePlanView>) -> Files
    decreases plans.len(),
{
    if plans.len() == 0 {
        files
    } else {
        run_steps(run_plans(files, plans.drop_last()), plans.last().steps())
    }
}

/// `seen` is a state that a reader may find while `plans` run one after the
/// other from `files`, or after they stopped at any point.
pub open spec fn seen_during_plans(files: Files, plans: Seq<WritePlanView>, seen: Files) -> bool {
    seen == files || exists|i: int|
        0 <= i < plans.len() && #[trigger] seen_during(
            run_plans(files, plans.take(i)),
            plans[i].steps(),
            seen,
        )
}

/// The plan for a document of the store keeps its temporary file apart from
/// its target, in the same directory.
pub proof fn lemma_document_plan(
    dir: Seq<char>,
    file: Seq<char>,
    suffix: Seq<char>,
    data: Seq<u8>,
)
    requires
        is_segment(file),
        has_suffix(file, ".json"@),
        is_hex_text(suffix),
    ensures
        WritePlanView::planned(dir, file, suffix, data).temp != WritePlanView::planned(
            dir,
            file,
            suffix,
            data,
        ).dest,
        is_segment(temp_name_of(file, suffix)),
{
    lemma_temp_name_differs(file, suffix);
    lemma_temp_name_is_segment(file, suffix);
    lemma_join_apart(dir, temp_name_of(file, suffix), file);
}

/// The file of a check-in whose identifier holds no `/` is a segment that
/// ends in `.json`.
pub proof fn lemma_checkin_file_name(id: Seq<char>)
    requires
        forall|i: int| 0 <= i < id.len() ==> id[i] != '/',
    ensures
        is_segment(checkin_file_name(id)),
        has_suffix(checkin_file_name(id), ".json"@),
{
    reveal_strlit(".json");
    let name = checkin_file_name(id);
    let ext = ".json"@;
    assert(ext.len() == 5);
    assert(name.len() == id.len() + 5);
    assert forall|i: int| 0 <= i < name.len() implies name[i] != '/' by {
        if i < id.len() {
            assert(name[i] == id[i]);
        } else {
            assert(name[i] == ext[i - id.len()]);
        }
    }
    assert(name.subrange(name.len() - 5, name.len() as int) == ext);
}

/// Atomicity for the documents of the store. Whatever a reader finds at a
/// document while it is replaced, and whatever a failure or a crash at any
/// point leaves there, is what the document held before or the complete new
/// document.
pub proof fn lemma_document_write_is_atomic(
    files: Files,
    dir: Seq<char>,
    file: Seq<char>,
    suffix: Seq<char>,
    data: Seq<u8>,
    seen: Files,
)
    requires
        is_segment(file),
        has_suffix(file, ".json"@),
        is_hex_text(suffix),
        seen_during(files, WritePlanView::planned(dir, file, suffix, data).steps(), seen),
    ensures
        same_at(seen, files, join_path(dir, file)) || holds(seen, join_path(dir, file), data),
{
    lemma_document_plan(dir, file, suffix, data);
    lemma_atomic_write(files, WritePlanView::planned(dir, file, suffix, data), seen);
}

/// After writes to one target, the target holds what the last one wrote.
pub proof fn lemma_last_write_wins(files: Files, plans: Seq<WritePlanView>, dest: Seq<char>)
    requires
        forall|i: int| 0 <= i < plans.len() ==> (#[trigger] plans[i]).dest == dest && plans[i].temp
            != dest,
    ensures
        plans.len() == 0 ==> run_plans(files, plans) == files,
        plans.len() > 0 ==> holds(run_plans(files, plans), dest, plans.last().data),
{
    if plans.len() > 0 {
        lemma_write_completes(run_plans(files, plans.drop_last()), plans.last());
    }
}

/// Atomicity over a sequence of writes to one target. Whatever a reader finds
/// at the target at any moment is what it held at the start or the complete
/// document of one of the writes: never part of one.
pub proof fn lemma_atomic_writes(
    files: Files,
    plans: Seq<WritePlanView>,
    dest: Seq<char>,
    seen: Files,
)
    requires
        forall|i: int| 0 <= i < plans.len() ==> (#[trigger] plans[i]).dest == dest && plans[i].temp
            != dest,
        seen_during_plans(files, plans, seen),
    ensures
        same_at(seen, files, dest) || exists|i: int|
            0 <= i < plans.len() && holds(seen, dest, (#[trigger] plans[i]).data),
{
    if seen != files {
        let i = choose|i: int|
            0 <= i < plans.len() && #[trigger] seen_during(
                run_plans(files, plans.take(i)),
                plans[i].steps(),
                seen,
            );
        let before = plans.take(i);
        let state = run_plans(files, before);
        lemma_atomic_write(state, plans[i], seen);
        assert forall|k: int| 0 <= k < before.len() implies (#[trigger] before[k]).dest == dest
            && before[k].temp != dest by {
            assert(before[k] == plans[k]);
        }
        lemma_last_write_wins(files, before, dest);
        if holds(seen, dest, plans[i].data) {
        } else if i > 0 {
            assert(before.last() == plans[i - 1]);
            assert(holds(seen, dest, plans[i - 1].data));
        }
    }
}

/// Tenants do not interfere. While a document of tenant `a` is written with
/// the plan for the file `file` in the tenant's own directory or its check-in
/// directory, nothing below the directory of another tenant `b` changes: a
/// reader of `b` finds at every moment what was there before.
pub proof fn lemma_tenant_write_leaves_others(
    files: Files,
    root: Seq<char>,
    a: Seq<char>,
    b: Seq<char>,
    in_checkins: bool,
    file: Seq<char>,
    suffix: Seq<char>,
    data: Seq<u8>,
    seen: Files,
    other: Seq<char>,
)
    requires
        is_segment(a),
        is_segment(b),
        a != b,
        is_segment(file),
        is_hex_text(suffix),
        is_under(user_dir_of(root, b), other),
        seen_during(
            files,
            WritePlanView::planned(
                if in_checkins {
                    user_checkins_dir_of(root, a)
                } else {
                    user_dir_of(root, a)
                },
                file,
                suffix,
                data,
            ).steps(),
            seen,
        ),
    ensures
        same_at(seen, files, other),
{
    let dir = if in_checkins {
        user_checkins_dir_of(root, a)
    } else {
        user_dir_of(root, a)
    };
    let plan = WritePlanView::planned(dir, file, suffix, data);
    lemma_temp_name_is_segment(file, suffix);
    lemma_tenant_owns_its_paths(root, a, file);
    lemma_tenant_owns_its_paths(root, a, temp_name_of(file, suffix));
    lemma_tenants_apart(root, a, b, plan.dest);
    lemma_tenants_apart(root, a, b, plan.temp);
    lemma_plan_touches_two_paths(files, plan, seen, other);
}

/// Two writers at once: where the files stand and how far each plan has come
/// after the steps of the two plans were carried out in some order. `picks`
/// is that order: each entry says whether the next step taken is the first
/// plan's. A pick for a plan that is through changes nothing.
pub open spec fn race(
    files: Files,
    first: WritePlanView,
    second: WritePlanView,
    picks: Seq<bool>,
) -> (Files, int, int)
    decreases picks.len(),
{
    if picks.len() == 0 {
        (files, 0, 0)
    } else {
        let (now, i, j) = race(files, first, second, picks.drop_last());
        if picks.last() {
            if i < 3 {
                (apply_step(now, first.steps()[i]), i + 1, j)
            } else {
                (now, i, j)
            }
        } else {
            if j < 3 {
                (apply_step(now, second.steps()[j]), i, j + 1)
            } else {
                (now, i, j)
            }
        }
    }
}

/// Concurrent writers to one document never mix their bytes. However the
/// steps of two plans for the same target interleave, the target holds at
/// every point what it held before or the complete document of one of the
/// two, and once both plans are through it holds one of the two documents.
/// The temporary files must differ, which fresh names see to.
pub proof fn lemma_concurrent_writers(
    files: Files,
    first: WritePlanView,
    second: WritePlanView,
    picks: Seq<bool>,
)
    requires
        first.dest == second.dest,
        first.temp != first.dest,
        second.temp != second.dest,
        first.temp != second.temp,
    ensures
        ({
            let (now, i, j) = race(files, first, second, picks);
            &&& 0 <= i <= 3 && 0 <= j <= 3
            &&& i == 2 ==> holds(now, first.temp, first.data)
            &&& j == 2 ==> holds(now, second.temp, second.data)
            &&& i < 3 && j < 3 ==> same_at(now, files, first.dest)
            &&& i == 3 || j == 3 ==> holds(now, first.dest, first.data) || holds(
                now,
                first.dest,
                second.data,
            )
            &&& i == 3 && j < 3 ==> holds(now, first.dest, first.data)
            &&& j == 3 && i < 3 ==> holds(now, first.dest, second.data)
        }),
    decreases picks.len(),
{
    if picks.len() > 0 {
        lemma_concurrent_writers(files, first, second, picks.drop_last());
    }
}

/// The step reads and writes nothing but paths below `dir`.
pub open spec fn step_within(step: FsStep, dir: Seq<char>) -> bool {
    match step {
        FsStep::CreateDirAll { path } => true,
        FsStep::Write { path, data } => is_under(dir, path),
        FsStep::Rename { from, to } => is_under(dir, from) && is_under(dir, to),
    }
}

/// Concurrent tenants. A step of one tenant and a step of another may be
/// carried out in either order: the files end up the same. So whatever way
/// the steps of two tenants' writes interleave, each tenant ends with what
/// its own writes made.
pub proof fn lemma_tenant_steps_commute(
    files: Files,
    root: Seq<char>,
    a: Seq<char>,
    b: Seq<char>,
    step_a: FsStep,
    step_b: FsStep,
)
    requires
        is_segment(a),
        is_segment(b),
        a != b,
        step_within(step_a, user_dir_of(root, a)),
        step_within(step_b, user_dir_of(root, b)),
    ensures
        apply_step(apply_step(files, step_a), step_b) == apply_step(
            apply_step(files, step_b),
            step_a,
        ),
{
    assert forall|p: Seq<char>, q: Seq<char>|
        is_under(user_dir_of(root, a), p) && is_under(user_dir_of(root, b), q) implies p != q by {
        lemma_tenants_apart(root, a, b, p);
    }
    let ab = apply_step(apply_step(files, step_a), step_b);
    let ba = apply_step(apply_step(files, step_b), step_a);
    assert(ab =~= ba);
}

/// The steps of a tenant's document plans stay within the tenant's
/// directory.
pub proof fn lemma_tenant_plan_within(
    root: Seq<char>,
    tenant: Seq<char>,
    in_checkins: bool,
    file: Seq<char>,
    suffix: Seq<char>,
    data: Seq<u8>,
    i: int,
)
    requires
        is_segment(tenant),
        is_segment(file),
        is_hex_text(suffix),
        0 <= i < 3,
    ensures
        step_within(
            WritePlanView::planned(
                if in_checkins {
                    user_checkins_dir_of(root, tenant)
                } else {
                    user_dir_of(root, tenant)
                },
                file,
                suffix,
                data,
            ).steps()[i],
            user_dir_of(root, tenant),
        ),
{
    lemma_temp_name_is_segment(file, suffix);
    lemma_tenant_owns_its_paths(root, tenant, file);
    lemma_tenant_owns_its_paths(root, tenant, temp_name_of(file, suffix));
}

} // verus!
