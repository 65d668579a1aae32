//! The anonymizing delete: before a file is unlinked it is renamed, within
//! its directory, to a name of zeros as long as its own, and then to ever
//! shorter names of zeros, so that the entry that finally disappears says
//! nothing of the name the file had.
//!
//! This module lays out the steps; the caller performs them in order and
//! stops at the first that fails.

use vstd::prelude::*;
use vstd::string::*;

verus! {

/// One step of a removal.
#[derive(Debug, PartialEq, Eq)]
pub enum RemoveStep {
    /// Rename the file at `from` to `to`.
    Rename { from: String, to: String },
    /// Unlink the file at `path`.
    Unlink { path: String },
}

/// A step, with its paths as texts.
pub enum StepText {
    /// Rename the file at `from` to `to`.
    Rename { from: Seq<char>, to: Seq<char> },
    /// Unlink the file at `path`.
    Unlink { path: Seq<char> },
}

impl View for RemoveStep {
    type V = StepText;

    open spec fn view(&self) -> StepText {
        match self {
            RemoveStep::Rename { from, to } => StepText::Rename { from: from@, to: to@ },
            RemoveStep::Unlink { path } => StepText::Unlink { path: path@ },
        }
    }
}

/// The steps of a list, each as texts.
pub open spec fn step_texts(steps: Seq<RemoveStep>) -> Seq<StepText> {
    steps.map_values(|s: RemoveStep| s@)
}

/// The name made of `len` zeros.
pub open spec fn zero_name(len: nat) -> Seq<char> {
    Seq::new(len, |i: int| '0')
}

/// Where the file is once `done` renames have been made: at `canonical`
/// before the first, then in `dir` under a name of zeros that is as long as
/// the file's own name after the first rename and one shorter after each
/// further one.
pub open spec fn path_after(
    canonical: Seq<char>,
    dir: Seq<char>,
    separator: Seq<char>,
    name_len: nat,
    done: nat,
) -> Seq<char> {
    if done == 0 {
        canonical
    } else {
        dir + separator + zero_name((name_len - done + 1) as nat)
    }
}

/// The steps that remove a file whose name has `name_len` characters: one
/// rename for each length from `name_len` down to 1, each from where the
/// step before left the file, and then the unlink.
pub open spec fn removal_plan(
    canonical: Seq<char>,
    dir: Seq<char>,
    separator: Seq<char>,
    name_len: nat,
) -> Seq<StepText> {
    Seq::new(
        name_len + 1,
        |k: int|
            if k < name_len {
                StepText::Rename {
                    from: path_after(canonical, dir, separator, name_len, k as nat),
                    to: path_after(canonical, dir, separator, name_len, (k + 1) as nat),
                }
            } else {
                StepText::Unlink { path: path_after(canonical, dir, separator, name_len, name_len) }
            },
    )
}

proof fn lemma_step_texts_push(steps: Seq<RemoveStep>, step: RemoveStep)
    ensures
        step_texts(steps.push(step)) == step_texts(steps).push(step@),
{
    assert(step_texts(steps.push(step)) =~= step_texts(steps).push(step@));
}

/// A name of `len` zeros.
fn zero_string(len: usize) -> (name: String)
    ensures
        name@ == zero_name(len as nat),
{
    let mut name = String::new();
    let mut i: usize = 0;
    while i < len
        invariant
            i <= len,
            name@ == zero_name(i as nat),
        decreases len - i,
    {
        proof {
            reveal_strlit("0");
            assert(zero_name(i as nat) + "0"@ =~= zero_name((i + 1) as nat));
        }
        name.append("0");
        i += 1;
    }
    name
}

/// Lays out the removal of the file at `canonical`, which lies in `dir`
/// under `file_name`: as many renames as `file_name` has characters, then
/// the unlink. `separator` stands between `dir` and each new name.
///
/// A file whose name is empty is unlinked where it is.
pub fn removal_steps(canonical: &str, dir: &str, separator: &str, file_name: &str) -> (steps: Vec<
    RemoveStep,
>)
    ensures
        step_texts(steps@) == removal_plan(canonical@, dir@, separator@, file_name@.len()),
{
    let len = file_name.unicode_len();
    let zeros = zero_string(len);
    let ghost plan = removal_plan(canonical@, dir@, separator@, len as nat);
    let mut steps: Vec<RemoveStep> = Vec::new();
    let mut current = String::from_str(canonical);
    let mut done: usize = 0;
    while done < len
        invariant
            done <= len,
            len == file_name@.len(),
            zeros@ == zero_name(len as nat),
            plan == removal_plan(canonical@, dir@, separator@, len as nat),
            current@ == path_after(canonical@, dir@, separator@, len as nat, done as nat),
            step_texts(steps@) == plan.take(done as int),
        decreases len - done,
    {
        let name = zeros.as_str().substring_char(0, len - done);
        assert(name@ =~= zero_name((len - done) as nat));
        let mut target = String::from_str(dir);
        target.append(separator);
        target.append(name);
        let step = RemoveStep::Rename { from: current, to: target.clone() };
        assert(step@ == plan[done as int]);
        proof {
            lemma_step_texts_push(steps@, step);
            assert(plan.take(done as int).push(plan[done as int]) =~= plan.take(done as int + 1));
        }
        steps.push(step);
        current = target;
        done += 1;
    }
    let step = RemoveStep::Unlink { path: current };
    proof {
        lemma_step_texts_push(steps@, step);
        assert(plan.take(len as int).push(plan[len as int]) =~= plan);
    }
    steps.push(step);
    steps
}

/// A file whose name has `name_len` characters is removed by exactly
/// `name_len` renames followed by one unlink. The renames give it names of
/// zeros of length `name_len`, `name_len - 1`, and so on down to 1, all in
/// `dir`. The first rename starts from `canonical`, each later one from where
/// the rename before it left the file, and the unlink takes the file from
/// where the last rename left it.
pub proof fn lemma_renames_then_unlinks(
    canonical: Seq<char>,
    dir: Seq<char>,
    separator: Seq<char>,
    name_len: nat,
)
    ensures
        ({
            let plan = removal_plan(canonical, dir, separator, name_len);
            &&& plan.len() == name_len + 1
            &&& forall|k: int|
                0 <= k < name_len ==> {
                    &&& #[trigger] plan[k] matches StepText::Rename { from, to }
                    &&& to == dir + separator + zero_name((name_len - k) as nat)
                    &&& k == 0 ==> from == canonical
                    &&& k > 0 ==> (plan[k - 1] matches StepText::Rename { to: before, .. }
                        && from == before)
                }
            &&& plan[name_len as int] matches StepText::Unlink { path }
            &&& name_len == 0 ==> path == canonical
            &&& name_len > 0 ==> (plan[name_len - 1] matches StepText::Rename { to: before, .. }
                && path == before)
        }),
{
}

} // verus!
