//! Turns opened connection spots into planned work and reported failures.

use crate::ora_sql::types::{display_text, Target};
use crate::text::{remove_all, without};
use crate::types::{InstanceName, SqlQuery};
use vstd::prelude::*;
use vstd::string::*;

verus! {

/// One configured monitoring section, known to the planner by the header
/// of its work.
pub struct Section {
    pub header: String,
}

/// What one section answers for one instance.
pub struct SectionAnswer {
    /// Whether the affinity of the instance suits the one that the section
    /// asks for.
    pub suitable: bool,
    /// The queries that the section has for the instance, if it has any.
    pub queries: Option<Vec<SqlQuery>>,
}

/// What is known of a discovered instance: the answers of the configured
/// sections, in the order in which the sections are configured.
pub struct InstanceInfo {
    pub answers: Vec<SectionAnswer>,
}

/// One discovered instance, with or without a description.
pub struct WorkInstance {
    pub name: InstanceName,
    pub info: Option<InstanceInfo>,
}

/// The instances that discovery found on one spot.
pub struct WorkInstances {
    pub entries: Vec<WorkInstance>,
}

/// A spot whose connection is open, with what instance discovery on it
/// gave: the instances, or the message of the failure.
pub struct OpenedSpot {
    target: Target,
    discovery: Result<WorkInstances, String>,
}

/// A spot after its connection was released. It keeps the target as a label.
pub struct ClosedSpot {
    target: Target,
}

impl OpenedSpot {
    /// The target that the spot connects to.
    pub closed spec fn label(self) -> Target {
        self.target
    }

    /// What discovery gave.
    pub closed spec fn outcome(self) -> Result<WorkInstances, String> {
        self.discovery
    }

    /// An opened spot with what discovery on it gave.
    pub fn new(target: Target, discovery: Result<WorkInstances, String>) -> (r: Self)
        ensures
            r.label() == target,
            r.outcome() == discovery,
    {
        OpenedSpot { target, discovery }
    }

    /// Ends the life of the opened spot: what is left is the closed spot,
    /// and beside it what discovery gave.
    pub fn close(self) -> (r: (ClosedSpot, Result<WorkInstances, String>))
        ensures
            r.0.label() == self.label(),
            r.1 == self.outcome(),
    {
        (ClosedSpot { target: self.target }, self.discovery)
    }
}

impl ClosedSpot {
    /// The target that the spot connected to.
    pub closed spec fn label(self) -> Target {
        self.target
    }

    /// The target that the spot connected to.
    pub fn target(&self) -> (r: &Target)
        ensures
            *r == self.label(),
    {
        &self.target
    }
}

/// The work of one section for one instance.
pub type SectionWork = (Vec<SqlQuery>, String);

/// The work of all sections for one instance.
pub type InstanceWorks = (InstanceName, Vec<SectionWork>);

/// A closed spot with its work or with the message of its failure.
pub type SpotWorkResults = (ClosedSpot, Result<Vec<InstanceWorks>, String>);

/// A closed spot with the work planned for it.
pub type SpotWorks = (ClosedSpot, Vec<InstanceWorks>);

/// A closed spot with the message of its failure.
pub type SpotErrors = (ClosedSpot, String);

/// The work that section `k` has for an instance with the given answers:
/// its queries and its header, where the answer says that the instance
/// suits it and holds queries; nothing otherwise, nor without an answer.
pub open spec fn section_work(
    sections: Seq<Section>,
    answers: Seq<SectionAnswer>,
    k: int,
) -> Option<SectionWork> {
    if 0 <= k < sections.len() && k < answers.len() && answers[k].suitable
        && answers[k].queries is Some {
        Some((answers[k].queries->0, sections[k].header))
    } else {
        None
    }
}

/// The work of the first `n` sections for an instance, in their order.
pub open spec fn section_works(
    sections: Seq<Section>,
    answers: Seq<SectionAnswer>,
    n: int,
) -> Seq<SectionWork>
    decreases n,
{
    if n <= 0 {
        Seq::empty()
    } else {
        let before = section_works(sections, answers, n - 1);
        match section_work(sections, answers, n - 1) {
            Some(work) => before.push(work),
            None => before,
        }
    }
}

/// The work planned for one instance, as a value of specifications.
pub struct InstancePlan {
    pub name: InstanceName,
    pub works: Seq<SectionWork>,
}

/// The plans of the first `n` instances: one for each instance that has a
/// description, in their order; an instance without one is passed over.
pub open spec fn instance_plans(
    instances: Seq<WorkInstance>,
    sections: Seq<Section>,
    n: int,
) -> Seq<InstancePlan>
    decreases n,
{
    if n <= 0 {
        Seq::empty()
    } else {
        let before = instance_plans(instances, sections, n - 1);
        match instances[n - 1].info {
            Some(info) => before.push(
                InstancePlan {
                    name: instances[n - 1].name,
                    works: section_works(sections, info.answers@, sections.len() as int),
                },
            ),
            None => before,
        }
    }
}

/// `works` holds what `plans` say, entry by entry.
pub open spec fn works_follow(works: Seq<InstanceWorks>, plans: Seq<InstancePlan>) -> bool {
    &&& works.len() == plans.len()
    &&& forall|j: int|
        0 <= j < works.len() ==> (#[trigger] works[j]).0 == plans[j].name && works[j].1@
            == plans[j].works
}

/// The message under which a failed discovery is reported.
pub open spec fn failure_text(display_name: Seq<char>, message: Seq<char>) -> Seq<char> {
    "REMOTE_INSTANCE_"@ + display_name + "|FAILURE|WARNING: "@ + without(message, "OCI Error: "@)
}

/// From section `m` on nothing is added where the answers or the sections
/// have ended before it.
pub proof fn lemma_section_works_end(
    sections: Seq<Section>,
    answers: Seq<SectionAnswer>,
    m: int,
    n: int,
)
    requires
        0 <= m <= n,
        m >= answers.len() || m >= sections.len(),
    ensures
        section_works(sections, answers, n) == section_works(sections, answers, m),
    decreases n - m,
{
    if m < n {
        lemma_section_works_end(sections, answers, m, n - 1);
    }
}

/// The work of the configured sections for one instance, from the answers
/// that the sections gave for it.
pub fn make_section_works(sections: &Vec<Section>, info: InstanceInfo) -> (works: Vec<SectionWork>)
    ensures
        works@ == section_works(sections@, info.answers@, sections@.len() as int),
{
    let ghost answers = info.answers@;
    assert(info.answers.len() <= usize::MAX);
    let mut works: Vec<SectionWork> = Vec::new();
    let mut k: usize = 0;
    for answer in it: info.answers
        invariant
            it.seq() == answers,
            answers.len() <= usize::MAX,
            k == it.index(),
            works@ == section_works(sections@, answers, k as int),
    {
        if k < sections.len() && answer.suitable {
            match answer.queries {
                Some(queries) => {
                    works.push((queries, sections[k].header.clone()));
                },
                None => {},
            }
        }
        k += 1;
    }
    proof {
        if answers.len() <= sections@.len() {
            lemma_section_works_end(
                sections@,
                answers,
                answers.len() as int,
                sections@.len() as int,
            );
        } else {
            lemma_section_works_end(
                sections@,
                answers,
                sections@.len() as int,
                answers.len() as int,
            );
        }
    }
    works
}

/// The closed spot with the work of its instances: one entry for each
/// instance that has a description, with the work of the sections that suit
/// it and have queries for it, in the order of the sections.
pub fn _make_closed_ok(
    closed: ClosedSpot,
    instances: WorkInstances,
    sections: &Vec<Section>,
) -> (r: SpotWorkResults)
    ensures
        r.0 == closed,
        r.1 matches Ok(works) && works_follow(
            works@,
            instance_plans(instances.entries@, sections@, instances.entries@.len() as int),
        ),
{
    let ghost entries = instances.entries@;
    assert(instances.entries.len() <= usize::MAX);
    let mut works: Vec<InstanceWorks> = Vec::new();
    let mut k: usize = 0;
    for instance in it: instances.entries
        invariant
            it.seq() == entries,
            entries.len() <= usize::MAX,
            k == it.index(),
            works_follow(works@, instance_plans(entries, sections@, k as int)),
    {
        match instance.info {
            Some(info) => {
                let section_works = make_section_works(sections, info);
                works.push((instance.name, section_works));
            },
            None => {},
        }
        k += 1;
    }
    (closed, Ok(works))
}

/// The closed spot with the message that reports its failed discovery.
pub fn _make_closed_error(closed: ClosedSpot, message: &str) -> (r: SpotWorkResults)
    ensures
        r.0 == closed,
        r.1 matches Err(text) && text@ == failure_text(
            display_text(closed.label().target_id@),
            message@,
        ),
{
    let display_name = closed.target().display_name();
    let cleaned = remove_all(message, "OCI Error: ");
    let mut text = String::from_str("REMOTE_INSTANCE_");
    text.append(display_name.as_str());
    text.append("|FAILURE|WARNING: ");
    text.append(cleaned.as_str());
    (closed, Err(text))
}

/// The places among the first `n` spots whose discovery succeeded
/// (`ok`) or failed (`!ok`), in rising order.
pub open spec fn places(spots: Seq<OpenedSpot>, ok: bool, n: int) -> Seq<int>
    decreases n,
{
    if n <= 0 {
        Seq::empty()
    } else {
        let before = places(spots, ok, n - 1);
        if spots[n - 1].outcome().is_ok() == ok {
            before.push(n - 1)
        } else {
            before
        }
    }
}

/// `entry` is what a spot with successful discovery leaves: the spot,
/// closed, and the work of its instances.
pub open spec fn success_of(entry: SpotWorks, spot: OpenedSpot, sections: Seq<Section>) -> bool {
    &&& entry.0.label() == spot.label()
    &&& spot.outcome() matches Ok(instances) && works_follow(
        entry.1@,
        instance_plans(instances.entries@, sections, instances.entries@.len() as int),
    )
}

/// `entry` is what a spot with failed discovery leaves: the spot, closed,
/// and the message that reports the failure.
pub open spec fn failure_of(entry: SpotErrors, spot: OpenedSpot) -> bool {
    &&& entry.0.label() == spot.label()
    &&& spot.outcome() matches Err(message) && entry.1@ == failure_text(
        display_text(spot.label().target_id@),
        message@,
    )
}

/// `successes` holds, in order, what the succeeding spots among the first
/// `n` leave.
pub open spec fn successes_follow(
    successes: Seq<SpotWorks>,
    spots: Seq<OpenedSpot>,
    sections: Seq<Section>,
    n: int,
) -> bool {
    &&& successes.len() == places(spots, true, n).len()
    &&& forall|j: int|
        0 <= j < successes.len() ==> success_of(
            #[trigger] successes[j],
            spots[places(spots, true, n)[j]],
            sections,
        )
}

/// `failures` holds, in order, what the failing spots among the first `n`
/// leave.
pub open spec fn failures_follow(failures: Seq<SpotErrors>, spots: Seq<OpenedSpot>, n: int) -> bool {
    &&& failures.len() == places(spots, false, n).len()
    &&& forall|j: int|
        0 <= j < failures.len() ==> failure_of(
            #[trigger] failures[j],
            spots[places(spots, false, n)[j]],
        )
}

/// Closes every spot and sorts the spots by what discovery gave: those
/// with instances go, with their planned work, into the first list, those
/// that failed go, with the message that reports it, into the second. Each
/// list keeps the order of the spots.
pub fn make_spot_work_results(spots: Vec<OpenedSpot>, sections: Vec<Section>) -> (r: (
    Vec<SpotWorks>,
    Vec<SpotErrors>,
))
    ensures
        successes_follow(r.0@, spots@, sections@, spots@.len() as int),
        failures_follow(r.1@, spots@, spots@.len() as int),
        r.0@.len() + r.1@.len() == spots@.len(),
{
    let ghost all = spots@;
    assert(spots.len() <= usize::MAX);
    let mut ok: Vec<SpotWorks> = Vec::new();
    let mut err: Vec<SpotErrors> = Vec::new();
    let mut k: usize = 0;
    for spot in it: spots
        invariant
            it.seq() == all,
            all.len() <= usize::MAX,
            k == it.index(),
            successes_follow(ok@, all, sections@, k as int),
            failures_follow(err@, all, k as int),
    {
        let (closed, outcome) = spot.close();
        let result = match outcome {
            Err(message) => _make_closed_error(closed, message.as_str()),
            Ok(instances) => _make_closed_ok(closed, instances, &sections),
        };
        match result.1 {
            Ok(works) => {
                ok.push((result.0, works));
            },
            Err(text) => {
                err.push((result.0, text));
            },
        }
        k += 1;
    }
    proof {
        lemma_each_spot_once(all, all.len() as int);
    }
    (ok, err)
}

/// Every place is below `n`, and the places rise.
pub proof fn lemma_places_rise(spots: Seq<OpenedSpot>, ok: bool, n: int)
    requires
        0 <= n <= spots.len(),
    ensures
        forall|j: int|
            0 <= j < places(spots, ok, n).len() ==> 0 <= #[trigger] places(spots, ok, n)[j] < n
                && spots[places(spots, ok, n)[j]].outcome().is_ok() == ok,
        forall|i: int, j: int|
            0 <= i < j < places(spots, ok, n).len() ==> places(spots, ok, n)[i] < places(
                spots,
                ok,
                n,
            )[j],
    decreases n,
{
    if n > 0 {
        lemma_places_rise(spots, ok, n - 1);
    }
}

/// Every spot leaves exactly one entry: it stands among the places of the
/// outcome it had and not among those of the other, and the two lists
/// together are as long as the batch.
pub proof fn lemma_each_spot_once(spots: Seq<OpenedSpot>, n: int)
    requires
        0 <= n <= spots.len(),
    ensures
        places(spots, true, n).len() + places(spots, false, n).len() == n,
        forall|i: int|
            0 <= i < n ==> places(spots, (#[trigger] spots[i]).outcome().is_ok(), n).contains(i)
                && !places(spots, !spots[i].outcome().is_ok(), n).contains(i),
    decreases n,
{
    if n > 0 {
        lemma_each_spot_once(spots, n - 1);
        lemma_places_rise(spots, true, n);
        lemma_places_rise(spots, false, n);
        assert forall|i: int| 0 <= i < n implies places(
            spots,
            (#[trigger] spots[i]).outcome().is_ok(),
            n,
        ).contains(i) && !places(spots, !spots[i].outcome().is_ok(), n).contains(i) by {
            let same = spots[i].outcome().is_ok();
            let now = places(spots, same, n);
            let before = places(spots, same, n - 1);
            if i < n - 1 {
                let j = choose|j: int| 0 <= j < before.len() && before[j] == i;
                assert(now[j] == i);
            } else {
                assert(now[now.len() - 1] == i);
            }
        }
    }
}

/// Where exactly one spot of a batch fails discovery, the failures are one
/// entry, that of the failing spot, and all other spots are among the
/// successes.
pub proof fn lemma_single_failure(spots: Seq<OpenedSpot>, failing: int)
    requires
        0 <= failing < spots.len(),
        forall|i: int|
            0 <= i < spots.len() ==> (#[trigger] spots[i]).outcome().is_err() == (i == failing),
    ensures
        places(spots, false, spots.len() as int) == seq![failing],
        places(spots, true, spots.len() as int).len() == spots.len() - 1,
{
    lemma_failures_up_to(spots, failing, spots.len() as int);
    lemma_each_spot_once(spots, spots.len() as int);
}

proof fn lemma_failures_up_to(spots: Seq<OpenedSpot>, failing: int, n: int)
    requires
        0 <= failing < spots.len(),
        0 <= n <= spots.len(),
        forall|i: int|
            0 <= i < spots.len() ==> (#[trigger] spots[i]).outcome().is_err() == (i == failing),
    ensures
        places(spots, false, n) == if n <= failing {
            Seq::<int>::empty()
        } else {
            seq![failing]
        },
    decreases n,
{
    if n > 0 {
        lemma_failures_up_to(spots, failing, n - 1);
        assert(spots[n - 1].outcome().is_err() == (n - 1 == failing));
        if n - 1 == failing {
            assert(Seq::<int>::empty().push(failing) =~= seq![failing]);
        }
    }
}

} // verus!
