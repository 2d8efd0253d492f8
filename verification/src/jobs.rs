//! The jobs of one batch: one per selected file, each with an output name of
//! its own, and the reclaiming of the jobs that have finished.

use crate::action::{Action, Packet};
use crate::error::{Missing, PipelineError};
use crate::order::lemma_scripts_by_time_bases;
use crate::output_name::{is_resolved, names, resolve_output_name};
use crate::pipeline::{transfer_script, Pipeline, PipelineState};
use crate::rotate::Rotate;
use crate::source::{loadable, InputStream, Tag};
use crate::stream::{Rational, StreamId};
use vstd::prelude::*;
use vstd::seq_lib::lemma_multiset_commutative;

verus! {

/// The time between two looks at the pool of jobs in flight, in
/// milliseconds.
pub const RECLAIM_INTERVAL_MS: u64 = 200;

/// A file that was selected for rotation.
#[derive(Clone, Debug, PartialEq, Eq)]
pub struct Selection {
    /// The path of the file.
    pub path: String,
    /// The name of the file without its extension.
    pub stem: String,
    /// The extension of the file, without the dot.
    pub extension: String,
}

/// One job: the file to read, the name of the file to write in the output
/// directory, and the rotation. None of them changes once the job is made.
#[derive(Clone, Debug, PartialEq, Eq)]
pub struct Job {
    pub input: String,
    pub output: String,
    pub rotation: Rotate,
}

/// The names that are in use when the job `upto` of a batch is named: those
/// that were in use before, and the outputs of the jobs before it.
pub open spec fn taken_before(existing: Seq<String>, jobs: Seq<Job>, upto: int) -> Set<Seq<char>> {
    names(existing).union(
        Set::new(|name: Seq<char>| exists|j: int| 0 <= j < upto && (#[trigger] jobs[j]).output@ == name),
    )
}

/// Whether `jobs` are the jobs for `selected`: one job for each file, in the
/// same order, reading that file and rotating by `rotation`, and writing to
/// the first candidate name that neither is in `existing` nor is the output
/// of an earlier job.
pub open spec fn is_batch(jobs: Seq<Job>, selected: Seq<Selection>, rotation: Rotate, existing: Seq<String>) -> bool {
    &&& jobs.len() == selected.len()
    &&& forall|i: int|
        0 <= i < jobs.len() ==> {
            let job = #[trigger] jobs[i];
            &&& job.input == selected[i].path
            &&& job.rotation == rotation
            &&& is_resolved(
                job.output@,
                selected[i].stem@,
                selected[i].extension@,
                taken_before(existing, jobs, i),
            )
        }
}

/// The names in use when a job is named depend on the jobs before it only.
proof fn lemma_taken_before_prefix(existing: Seq<String>, first: Seq<Job>, second: Seq<Job>, upto: int)
    requires
        upto <= first.len(),
        upto <= second.len(),
        forall|j: int| 0 <= j < upto ==> first[j] == second[j],
    ensures
        taken_before(existing, first, upto) == taken_before(existing, second, upto),
{
    let left = taken_before(existing, first, upto);
    let right = taken_before(existing, second, upto);
    assert forall|name: Seq<char>| left.contains(name) <==> right.contains(name) by {
        if left.contains(name) && !names(existing).contains(name) {
            let j = choose|j: int| 0 <= j < upto && (#[trigger] first[j]).output@ == name;
            assert(second[j].output@ == name);
        }
        if right.contains(name) && !names(existing).contains(name) {
            let j = choose|j: int| 0 <= j < upto && (#[trigger] second[j]).output@ == name;
            assert(first[j].output@ == name);
        }
    }
    assert(left =~= right);
}

/// No two jobs of a batch write to the same name, and none writes to a name
/// that was in use before.
pub proof fn lemma_batch_outputs_distinct(jobs: Seq<Job>, selected: Seq<Selection>, rotation: Rotate, existing: Seq<String>)
    requires
        is_batch(jobs, selected, rotation, existing),
    ensures
        forall|i: int, j: int|
            0 <= i < j < jobs.len() ==> (#[trigger] jobs[i]).output@ != (#[trigger] jobs[j]).output@,
        forall|i: int| 0 <= i < jobs.len() ==> !names(existing).contains((#[trigger] jobs[i]).output@),
{
    assert forall|i: int, j: int| 0 <= i < j < jobs.len() implies (#[trigger] jobs[i]).output@ != (
    #[trigger] jobs[j]).output@ by {
        let taken = taken_before(existing, jobs, j);
        assert(taken.contains(jobs[i].output@));
        assert(is_resolved(jobs[j].output@, selected[j].stem@, selected[j].extension@, taken));
    }
    assert forall|i: int| 0 <= i < jobs.len() implies !names(existing).contains(
        (#[trigger] jobs[i]).output@,
    ) by {
        let taken = taken_before(existing, jobs, i);
        assert(is_resolved(jobs[i].output@, selected[i].stem@, selected[i].extension@, taken));
        if names(existing).contains(jobs[i].output@) {
            assert(taken.contains(jobs[i].output@));
        }
    }
}

/// Makes the jobs for the selected files. `existing` holds the names of the
/// files that the output directory has already.
pub fn plan_jobs(selected: &Vec<Selection>, rotation: Rotate, existing: &Vec<String>) -> (jobs: Vec<Job>)
    ensures
        is_batch(jobs@, selected@, rotation, existing@),
{
    let mut jobs: Vec<Job> = Vec::new();
    let mut taken: Vec<String> = Vec::new();
    let mut index: usize = 0;
    while index < existing.len()
        invariant
            index <= existing.len(),
            taken@ == existing@.take(index as int),
        decreases existing.len() - index,
    {
        taken.push(existing[index].clone());
        assert(taken@ =~= existing@.take(index + 1));
        index += 1;
    }
    assert(existing@.take(index as int) =~= existing@);
    let mut index: usize = 0;
    while index < selected.len()
        invariant
            index <= selected.len(),
            jobs.len() == index,
            names(taken@) == taken_before(existing@, jobs@, index as int),
            is_batch(jobs@, selected@.take(index as int), rotation, existing@),
        decreases selected.len() - index,
    {
        let file = &selected[index];
        let output = resolve_output_name(file.stem.as_str(), file.extension.as_str(), &taken);
        let ghost before = jobs@;
        let ghost taken_names = names(taken@);
        let ghost taken_list = taken@;
        taken.push(output.clone());
        jobs.push(Job { input: file.path.clone(), output, rotation });
        proof {
            let batch = jobs@;
            assert forall|i: int| 0 <= i <= index implies taken_before(existing@, batch, i)
                == taken_before(existing@, before, i) by {
                lemma_taken_before_prefix(existing@, batch, before, i);
            }
            assert(names(taken@) =~= taken_before(existing@, batch, index + 1)) by {
                assert forall|name: Seq<char>| names(taken@).contains(name) implies taken_before(
                    existing@,
                    batch,
                    index + 1,
                ).contains(name) by {
                    let i = choose|i: int| 0 <= i < taken@.len() && (#[trigger] taken@[i])@ == name;
                    if i < taken_list.len() {
                        assert(taken_list[i]@ == name);
                        assert(taken_names.contains(name));
                        if !names(existing@).contains(name) {
                            let j = choose|j: int|
                                0 <= j < index && (#[trigger] before[j]).output@ == name;
                            assert(batch[j].output@ == name);
                        }
                    } else {
                        assert(batch[index as int].output@ == name);
                    }
                }
                assert forall|name: Seq<char>|
                    taken_before(existing@, batch, index + 1).contains(name) implies names(
                    taken@,
                ).contains(name) by {
                    if names(existing@).contains(name) {
                        assert(taken_names.contains(name));
                        let i = choose|i: int|
                            0 <= i < taken_list.len() && (#[trigger] taken_list[i])@ == name;
                        assert(taken@[i]@ == name);
                    } else {
                        let j = choose|j: int|
                            0 <= j < index + 1 && (#[trigger] batch[j]).output@ == name;
                        if j < index {
                            assert(before[j].output@ == name);
                            assert(taken_names.contains(name));
                            let i = choose|i: int|
                                0 <= i < taken_list.len() && (#[trigger] taken_list[i])@ == name;
                            assert(taken@[i]@ == name);
                        } else {
                            assert(taken@[taken_list.len() as int]@ == name);
                        }
                    }
                }
            }
            let chosen = selected@.take(index + 1);
            assert forall|i: int| 0 <= i < batch.len() implies {
                let job = #[trigger] batch[i];
                &&& job.input == chosen[i].path
                &&& job.rotation == rotation
                &&& is_resolved(
                    job.output@,
                    chosen[i].stem@,
                    chosen[i].extension@,
                    taken_before(existing@, batch, i),
                )
            } by {
                if i < index {
                    assert(batch[i] == before[i]);
                    assert(chosen[i] == selected@.take(index as int)[i]);
                }
            }
        }
        index += 1;
    }
    assert(selected@.take(index as int) =~= selected@);
    jobs
}

/// The entries of a pool that have not finished, in their order.
pub open spec fn running<T>(pool: Seq<T>, finished: Seq<bool>) -> Seq<T>
    decreases pool.len(),
{
    if pool.len() == 0 || finished.len() == 0 {
        pool
    } else {
        let rest = running(pool.drop_first(), finished.drop_first());
        if finished[0] {
            rest
        } else {
            seq![pool[0]] + rest
        }
    }
}

/// The entries of a pool that have finished, the last of them first.
pub open spec fn reclaimed<T>(pool: Seq<T>, finished: Seq<bool>) -> Seq<T>
    decreases pool.len(),
{
    if pool.len() == 0 || finished.len() == 0 {
        Seq::empty()
    } else {
        let rest = reclaimed(pool.drop_first(), finished.drop_first());
        if finished[0] {
            rest.push(pool[0])
        } else {
            rest
        }
    }
}

/// Reclaiming loses no job and makes none up: every entry of the pool is
/// afterwards either still in the pool or among the reclaimed, as often as it
/// was in the pool before.
pub proof fn lemma_reclaim_partitions<T>(pool: Seq<T>, finished: Seq<bool>)
    requires
        finished.len() == pool.len(),
    ensures
        pool.to_multiset() == running(pool, finished).to_multiset().add(
            reclaimed(pool, finished).to_multiset(),
        ),
        running(pool, finished).len() + reclaimed(pool, finished).len() == pool.len(),
    decreases pool.len(),
{
    broadcast use vstd::multiset::group_multiset_axioms;

    let kept = running(pool, finished);
    let taken = reclaimed(pool, finished);
    if pool.len() == 0 {
        lemma_multiset_commutative(pool, taken);
        assert(pool + taken =~= pool);
    } else {
        let first = seq![pool[0]];
        let rest = pool.drop_first();
        let flags = finished.drop_first();
        lemma_reclaim_partitions(rest, flags);
        let kept_rest = running(rest, flags);
        let taken_rest = reclaimed(rest, flags);
        assert(pool =~= first + rest);
        lemma_multiset_commutative(first, rest);
        if finished[0] {
            assert(taken =~= taken_rest + first);
            lemma_multiset_commutative(taken_rest, first);
        } else {
            lemma_multiset_commutative(first, kept_rest);
        }
        assert(pool.to_multiset() =~= kept.to_multiset().add(taken.to_multiset()));
    }
}

/// Takes the finished entries out of the pool of jobs in flight.
/// `finished[i]` says whether the entry `i` of the pool has finished. The
/// entries are taken from the end of the pool to its start, so that taking
/// one out moves none that is still to be looked at; the others stay in
/// their order.
pub fn reclaim<T>(pool: &mut Vec<T>, finished: &Vec<bool>) -> (done: Vec<T>)
    requires
        finished.len() == old(pool).len(),
    ensures
        final(pool)@ == running(old(pool)@, finished@),
        done@ == reclaimed(old(pool)@, finished@),
{
    let mut done: Vec<T> = Vec::new();
    let mut index: usize = pool.len();
    let ghost all = pool@;
    proof {
        assert(all.skip(index as int) =~= Seq::<T>::empty());
        assert(all.take(index as int) =~= all);
        assert(pool@ =~= all.take(index as int) + running(
            all.skip(index as int),
            finished@.skip(index as int),
        ));
    }
    while index > 0
        invariant
            index <= all.len(),
            all.len() == finished.len(),
            pool@ == all.take(index as int) + running(
                all.skip(index as int),
                finished@.skip(index as int),
            ),
            done@ == reclaimed(all.skip(index as int), finished@.skip(index as int)),
        decreases index,
    {
        index -= 1;
        proof {
            let here = all.skip(index as int);
            let flags = finished@.skip(index as int);
            assert(here.drop_first() =~= all.skip(index + 1));
            assert(flags.drop_first() =~= finished@.skip(index + 1));
            assert(here[0] == all[index as int]);
            assert(flags[0] == finished[index as int]);
            assert(all.take(index + 1) =~= all.take(index as int) + seq![all[index as int]]);
        }
        if finished[index] {
            let entry = pool.remove(index);
            assert(entry == all[index as int]);
            assert(pool@ =~= all.take(index as int) + running(
                all.skip(index + 1),
                finished@.skip(index + 1),
            ));
            done.push(entry);
        } else {
            assert(pool@ =~= all.take(index as int) + (seq![all[index as int]] + running(
                all.skip(index + 1),
                finished@.skip(index + 1),
            )));
        }
    }
    proof {
        assert(all.skip(0) =~= all);
        assert(finished@.skip(0) =~= finished@);
        assert(all.take(0) =~= Seq::<T>::empty());
        assert(pool@ =~= running(all, finished@));
    }
    done
}

/// The steps of a whole job whose input consists of `packets`: the header,
/// the transfer, the trailer.
pub open spec fn job_script(pipeline: &Pipeline, packets: Seq<Packet>) -> Seq<Action> {
    seq![Action::WriteHeader] + transfer_script(
        pipeline.source(),
        pipeline.destination(),
        packets,
    ) + seq![Action::WriteTrailer]
}

/// Runs a job through all of its states, from set-up to the written
/// trailer, and gives the steps that it consists of. Fails as the first of
/// its parts that fails.
pub fn run_job(
    metadata: Vec<Tag>,
    streams: Vec<InputStream>,
    rotation: Rotate,
    output: &Vec<Rational>,
    packets: &Vec<Packet>,
) -> (outcome: Result<(Pipeline, Vec<Action>), PipelineError>)
    ensures
        outcome is Ok <==> {
            &&& loadable(streams@)
            &&& output.len() >= streams.len()
            &&& forall|i: int|
                0 <= i < packets.len() ==> (#[trigger] packets[i]).stream.0 < streams.len()
        },
        outcome is Err ==> {
            let error = outcome->Err_0;
            &&& error == PipelineError::DecoderInit <==> !loadable(streams@)
            &&& error == PipelineError::ConfigurationInvariantViolation(Missing::Stream)
                <==> loadable(streams@) && output.len() < streams.len()
            &&& error == PipelineError::ConfigurationInvariantViolation(Missing::TimeBase)
                <==> loadable(streams@) && output.len() >= streams.len()
        },
        outcome matches Ok((pipeline, script)) ==> {
            &&& pipeline.well_formed()
            &&& pipeline.state() == PipelineState::Closed
            &&& pipeline.rotate() == rotation
            &&& pipeline.source().holds(metadata@, streams@)
            &&& forall|id: StreamId| #[trigger]
                pipeline.source().has_stream(id) ==> pipeline.destination().time_bases()[id]
                    == output[id.0 as int]
            &&& script@ == job_script(&pipeline, packets@)
        },
{
    let mut pipeline = match Pipeline::init(metadata, streams, rotation) {
        Ok(pipeline) => pipeline,
        Err(error) => {
            return Err(error);
        },
    };
    let mut script: Vec<Action> = Vec::new();
    script.push(pipeline.write_header());
    match pipeline.configure(output) {
        Ok(()) => {},
        Err(error) => {
            return Err(error);
        },
    }
    let ghost configured = pipeline;
    let mut transfer = match pipeline.pump_packets(packets) {
        Ok(transfer) => transfer,
        Err(error) => {
            return Err(error);
        },
    };
    script.append(&mut transfer);
    script.push(pipeline.write_trailer());
    proof {
        assert(pipeline.source() == configured.source());
        assert(pipeline.destination().time_bases() == configured.destination().time_bases());
        lemma_scripts_by_time_bases(
            configured.source(),
            configured.destination(),
            pipeline.destination(),
            packets@,
        );
        assert(script@ =~= job_script(&pipeline, packets@));
    }
    Ok((pipeline, script))
}

} // verus!
