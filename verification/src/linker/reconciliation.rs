//! The reconciliation of a set of mappings: every planned link in the bucket
//! that its status calls for.
use crate::environment::types::{Environment, EnvironmentView};
use crate::fs::{LinkReader, MetadataChecks};
use crate::linker::link::{planned_link, status_of, DotLinker, DotLinkerError, FoundView};
use crate::linker::types::{DotLink, DotLinkSet, DotLinkView, DotStatus, DotStatusView};
use crate::mapping::{DotMap, LocatedTargetView};
use vstd::prelude::*;

verus! {

/// Why a reconciliation was given up.
#[derive(Debug)]
pub enum DotReconciliationError {
    Linker(DotLinkerError),
}

/// The four kinds of outcome that a reconciliation tells apart.
#[derive(Debug, Clone, Copy, PartialEq, Eq, Structural)]
pub enum Bucket {
    Confirmed,
    Pending,
    Clobber,
    Fix,
}

/// The bucket for a status: every link that exists but is wrong needs fixing.
pub open spec fn bucket_of(status: DotStatusView) -> Bucket {
    match status {
        DotStatusView::Confirmed => Bucket::Confirmed,
        DotStatusView::Pending => Bucket::Pending,
        DotStatusView::Clobber => Bucket::Clobber,
        DotStatusView::WrongLink(_) => Bucket::Fix,
        DotStatusView::AbsoluteLink(_) => Bucket::Fix,
        DotStatusView::WrongAbsoluteLink(_) => Bucket::Fix,
    }
}

/// The planned links of a run, by outcome.
#[derive(Debug)]
pub struct DotReconciliation {
    pub confirmed: DotLinkSet,
    pub pending: DotLinkSet,
    pub clobber: DotLinkSet,
    pub fix: DotLinkSet,
}

pub struct DotReconciliationView {
    pub confirmed: Set<DotLinkView>,
    pub pending: Set<DotLinkView>,
    pub clobber: Set<DotLinkView>,
    pub fix: Set<DotLinkView>,
}

impl DotReconciliationView {
    /// The reconciliation of nothing.
    pub open spec fn empty() -> Self {
        DotReconciliationView {
            confirmed: Set::empty(),
            pending: Set::empty(),
            clobber: Set::empty(),
            fix: Set::empty(),
        }
    }

    /// The links in one bucket.
    pub open spec fn bucket(self, bucket: Bucket) -> Set<DotLinkView> {
        match bucket {
            Bucket::Confirmed => self.confirmed,
            Bucket::Pending => self.pending,
            Bucket::Clobber => self.clobber,
            Bucket::Fix => self.fix,
        }
    }

    /// This reconciliation with `link` added to `bucket`.
    pub open spec fn with(self, link: DotLinkView, bucket: Bucket) -> Self {
        match bucket {
            Bucket::Confirmed => DotReconciliationView {
                confirmed: self.confirmed.insert(link),
                ..self
            },
            Bucket::Pending => DotReconciliationView { pending: self.pending.insert(link), ..self },
            Bucket::Clobber => DotReconciliationView { clobber: self.clobber.insert(link), ..self },
            Bucket::Fix => DotReconciliationView { fix: self.fix.insert(link), ..self },
        }
    }

    /// The sizes of the four buckets, added up.
    pub open spec fn total(self) -> nat {
        self.confirmed.len() + self.pending.len() + self.clobber.len() + self.fix.len()
    }

    /// Whether every bucket is finite.
    pub open spec fn finite(self) -> bool {
        &&& self.confirmed.finite()
        &&& self.pending.finite()
        &&& self.clobber.finite()
        &&& self.fix.finite()
    }

    /// Whether no link is in two buckets.
    pub open spec fn disjoint(self) -> bool {
        forall|link: DotLinkView, one: Bucket, other: Bucket|
            #![trigger self.bucket(one).contains(link), self.bucket(other).contains(link)]
            self.bucket(one).contains(link) && self.bucket(other).contains(link) ==> one == other
    }
}

impl View for DotReconciliation {
    type V = DotReconciliationView;

    open spec fn view(&self) -> DotReconciliationView {
        DotReconciliationView {
            confirmed: self.confirmed@,
            pending: self.pending@,
            clobber: self.clobber@,
            fix: self.fix@,
        }
    }
}

/// A planned link with the status found for it.
pub type Outcome = (DotLinkView, DotStatusView);

/// What the file system answered for one mapping: the real path of the
/// source, and what stands at the target of the link planned from it.
pub type Answer = (Seq<char>, FoundView);

/// The reconciliation of a run with these outcomes: each link in the bucket
/// of its status.
pub open spec fn reconciled(outcomes: Seq<Outcome>) -> DotReconciliationView
    decreases outcomes.len(),
{
    if outcomes.len() == 0 {
        DotReconciliationView::empty()
    } else {
        reconciled(outcomes.drop_last()).with(outcomes.last().0, bucket_of(outcomes.last().1))
    }
}

/// The outcome for one target, given what the file system answered.
pub open spec fn outcome_of(
    environment: EnvironmentView,
    target: LocatedTargetView,
    answer: Answer,
) -> Option<Outcome> {
    match planned_link(environment, target, answer.0) {
        Some(link) => Some((link, status_of(answer.1, link.link))),
        None => None,
    }
}

/// Whether `outcomes` are, one for one, what `answers` give for `maps`.
pub open spec fn answered(
    environment: EnvironmentView,
    maps: Seq<DotMap>,
    answers: Seq<Answer>,
    outcomes: Seq<Outcome>,
) -> bool {
    &&& answers.len() == maps.len()
    &&& outcomes.len() == maps.len()
    &&& forall|i: int|
        0 <= i < maps.len() ==> outcome_of(environment, maps[i].target@, #[trigger] answers[i])
            == Some(outcomes[i])
}

impl DotReconciliation {
    /// The reconciliation of nothing.
    pub fn new() -> (empty: Self)
        ensures
            empty@ == DotReconciliationView::empty(),
    {
        DotReconciliation {
            confirmed: DotLinkSet::new(),
            pending: DotLinkSet::new(),
            clobber: DotLinkSet::new(),
            fix: DotLinkSet::new(),
        }
    }

    /// Puts `link` into the bucket that `status` calls for.
    pub fn record(&mut self, link: DotLink, status: &DotStatus)
        ensures
            final(self)@ == old(self)@.with(link@, bucket_of(status@)),
    {
        match status {
            DotStatus::Confirmed => {
                self.confirmed.insert(link);
            },
            DotStatus::Pending => {
                self.pending.insert(link);
            },
            DotStatus::Clobber => {
                self.clobber.insert(link);
            },
            DotStatus::WrongLink(_) => {
                self.fix.insert(link);
            },
            DotStatus::AbsoluteLink(_) => {
                self.fix.insert(link);
            },
            DotStatus::WrongAbsoluteLink(_) => {
                self.fix.insert(link);
            },
        }
    }

    /// The number of links in all four buckets.
    pub fn total(&self) -> (count: Option<usize>)
        ensures
            self@.finite(),
            match count {
                Some(n) => n == self@.total(),
                None => self@.total() > usize::MAX,
            },
    {
        let confirmed = self.confirmed.len();
        let pending = self.pending.len();
        let clobber = self.clobber.len();
        let fix = self.fix.len();
        match confirmed.checked_add(pending) {
            Some(two) => match two.checked_add(clobber) {
                Some(three) => three.checked_add(fix),
                None => None,
            },
            None => None,
        }
    }

    /// Plans and checks the link of every mapping, in order, and puts each
    /// link into the bucket of its status. The first failure ends the run.
    ///
    /// On success the result is the reconciliation of the outcomes that the
    /// answers of the file system give for the mappings, one for one, and
    /// holds no more links than there are mappings. Where those answers are
    /// what a file system that does not change gives, no link is in two
    /// buckets. Without mappings the run succeeds and every bucket is empty.
    /// A failure is that of the file
    /// system, or that no relative path leads to a source.
    pub fn with_linker<MC: MetadataChecks, LR: LinkReader>(
        linker: &DotLinker<'_, MC, LR>,
        environment: &Environment,
        dot_maps: Vec<DotMap>,
    ) -> (run: Result<Self, DotReconciliationError>)
        ensures
            dot_maps.len() == 0 ==> run is Ok,
            match run {
                Ok(recon) => {
                    &&& exists|answers: Seq<Answer>, outcomes: Seq<Outcome>|
                        #![trigger answered(environment@, dot_maps@, answers, outcomes)]
                        {
                            &&& answered(environment@, dot_maps@, answers, outcomes)
                            &&& recon@ == reconciled(outcomes)
                            &&& unchanging(environment@, dot_maps@, answers) ==> recon@.disjoint()
                        }
                    &&& recon@.finite()
                    &&& recon@.total() <= dot_maps.len()
                },
                Err(DotReconciliationError::Linker(error)) => error is Io || error is RelativePath,
            },
    {
        let mut recon = DotReconciliation::new();
        let ghost mut answers: Seq<Answer> = Seq::empty();
        let ghost mut outcomes: Seq<Outcome> = Seq::empty();
        let mut i: usize = 0;
        while i < dot_maps.len()
            invariant
                i <= dot_maps.len(),
                answered(environment@, dot_maps@.take(i as int), answers, outcomes),
                recon@ == reconciled(outcomes),
            decreases dot_maps.len() - i,
        {
            let link = match linker.create_link(environment, &dot_maps[i]) {
                Ok(link) => link,
                Err(error) => {
                    return Err(DotReconciliationError::Linker(error));
                },
            };
            let status = match linker.check(&link) {
                Ok(status) => status,
                Err(error) => {
                    return Err(DotReconciliationError::Linker(error));
                },
            };
            proof {
                let target = dot_maps[i as int].target@;
                let canonical = choose|canonical: Seq<char>|
                    planned_link(environment@, target, canonical) == Some(link@);
                let found = choose|found: FoundView| status@ == status_of(found, link.link@);
                let answer: Answer = (canonical, found);
                let outcome: Outcome = (link@, status@);
                let before_outcomes = outcomes;
                answers = answers.push(answer);
                outcomes = outcomes.push(outcome);
                assert(outcomes.drop_last() =~= before_outcomes);
            }
            recon.record(link, &status);
            i += 1;
        }
        proof {
            assert(dot_maps@.take(dot_maps.len() as int) =~= dot_maps@);
            lemma_reconciled_bounded(outcomes);
            if unchanging(environment@, dot_maps@, answers) {
                let (canonical, found) = choose|
                    canonical: spec_fn(Seq<char>) -> Seq<char>,
                    found: spec_fn(Seq<char>) -> FoundView,
                | answers_of(environment@, dot_maps@, canonical, found, answers);
                lemma_unchanging_answers_disjoint(
                    environment@,
                    dot_maps@,
                    canonical,
                    found,
                    answers,
                    outcomes,
                );
            }
        }
        Ok(recon)
    }
}

/// A link is in a bucket of a reconciliation exactly if some outcome holds
/// that link with a status of that bucket.
pub proof fn lemma_reconciled_members(outcomes: Seq<Outcome>, bucket: Bucket, link: DotLinkView)
    ensures
        reconciled(outcomes).bucket(bucket).contains(link) <==> exists|i: int|
            0 <= i < outcomes.len() && (#[trigger] outcomes[i]).0 == link && bucket_of(
                outcomes[i].1,
            ) == bucket,
    decreases outcomes.len(),
{
    if outcomes.len() > 0 {
        let rest = outcomes.drop_last();
        lemma_reconciled_members(rest, bucket, link);
        if exists|i: int|
            0 <= i < outcomes.len() && (#[trigger] outcomes[i]).0 == link && bucket_of(
                outcomes[i].1,
            ) == bucket {
            let i = choose|i: int|
                0 <= i < outcomes.len() && (#[trigger] outcomes[i]).0 == link && bucket_of(
                    outcomes[i].1,
                ) == bucket;
            if i < rest.len() {
                assert(rest[i] == outcomes[i]);
            }
        }
    }
}

/// The buckets of a reconciliation are finite and hold no more links than
/// there were outcomes.
pub proof fn lemma_reconciled_bounded(outcomes: Seq<Outcome>)
    ensures
        reconciled(outcomes).finite(),
        reconciled(outcomes).total() <= outcomes.len(),
    decreases outcomes.len(),
{
    if outcomes.len() > 0 {
        lemma_reconciled_bounded(outcomes.drop_last());
    }
}

/// Where no two outcomes hold the same link, no link is in two buckets and
/// the sizes of the four buckets add up to the number of outcomes.
pub proof fn lemma_buckets_partition(outcomes: Seq<Outcome>)
    requires
        forall|i: int, j: int|
            0 <= i < j < outcomes.len() ==> (#[trigger] outcomes[i]).0 != (#[trigger] outcomes[j]).0,
    ensures
        reconciled(outcomes).finite(),
        reconciled(outcomes).disjoint(),
        reconciled(outcomes).total() == outcomes.len(),
    decreases outcomes.len(),
{
    if outcomes.len() > 0 {
        let rest = outcomes.drop_last();
        let last = outcomes.last();
        let before = reconciled(rest);
        lemma_buckets_partition(rest);
        assert forall|bucket: Bucket| !before.bucket(bucket).contains(last.0) by {
            lemma_reconciled_members(rest, bucket, last.0);
        }
        assert(!before.bucket(Bucket::Confirmed).contains(last.0));
        assert(!before.bucket(Bucket::Pending).contains(last.0));
        assert(!before.bucket(Bucket::Clobber).contains(last.0));
        assert(!before.bucket(Bucket::Fix).contains(last.0));
    }
}

/// A reconciliation is decided by the answers of the file system: whenever
/// two runs over the same mappings get the same answers, their outcomes and
/// so their reconciliations are the same.
pub proof fn lemma_same_answers_same_reconciliation(
    environment: EnvironmentView,
    maps: Seq<DotMap>,
    answers: Seq<Answer>,
    first: Seq<Outcome>,
    second: Seq<Outcome>,
)
    requires
        answered(environment, maps, answers, first),
        answered(environment, maps, answers, second),
    ensures
        first == second,
        reconciled(first) == reconciled(second),
{
    assert forall|i: int| 0 <= i < first.len() implies first[i] == second[i] by {
        assert(outcome_of(environment, maps[i].target@, answers[i]) == Some(first[i]));
    }
}

/// Whether `answers` are what a file system that does not change says of
/// `maps`: `canonical` is the real path it gives for each source, and
/// `found` what it finds at each target.
pub open spec fn answers_of(
    environment: EnvironmentView,
    maps: Seq<DotMap>,
    canonical: spec_fn(Seq<char>) -> Seq<char>,
    found: spec_fn(Seq<char>) -> FoundView,
    answers: Seq<Answer>,
) -> bool {
    &&& answers.len() == maps.len()
    &&& forall|i: int|
        0 <= i < maps.len() ==> {
            &&& (#[trigger] answers[i]).0 == canonical(maps[i].source@)
            &&& match planned_link(environment, maps[i].target@, answers[i].0) {
                Some(link) => answers[i].1 == found(link.target),
                None => true,
            }
        }
}

/// Whether `answers` are what some file system that does not change says
/// of `maps`.
pub open spec fn unchanging(environment: EnvironmentView, maps: Seq<DotMap>, answers: Seq<Answer>) -> bool {
    exists|canonical: spec_fn(Seq<char>) -> Seq<char>, found: spec_fn(Seq<char>) -> FoundView|
        answers_of(environment, maps, canonical, found, answers)
}

/// Whether every mapping of `maps` is, by its view, among `others`.
pub open spec fn all_among(maps: Seq<DotMap>, others: Seq<DotMap>) -> bool {
    forall|i: int|
        0 <= i < maps.len() ==> exists|j: int|
            0 <= j < others.len() && (#[trigger] others[j])@ == (#[trigger] maps[i])@
}

/// Under a file system that does not change, the status of a planned link
/// goes by the link alone.
proof fn lemma_status_by_link(
    environment: EnvironmentView,
    maps: Seq<DotMap>,
    canonical: spec_fn(Seq<char>) -> Seq<char>,
    found: spec_fn(Seq<char>) -> FoundView,
    answers: Seq<Answer>,
    outcomes: Seq<Outcome>,
    i: int,
)
    requires
        answered(environment, maps, answers, outcomes),
        answers_of(environment, maps, canonical, found, answers),
        0 <= i < maps.len(),
    ensures
        planned_link(environment, maps[i].target@, canonical(maps[i].source@)) == Some(outcomes[i].0),
        outcomes[i].1 == status_of(found(outcomes[i].0.target), outcomes[i].0.link),
{
    assert(outcome_of(environment, maps[i].target@, answers[i]) == Some(outcomes[i]));
}

/// Under a file system that does not change, no link is in two buckets,
/// even where several mappings plan the same link.
pub proof fn lemma_unchanging_answers_disjoint(
    environment: EnvironmentView,
    maps: Seq<DotMap>,
    canonical: spec_fn(Seq<char>) -> Seq<char>,
    found: spec_fn(Seq<char>) -> FoundView,
    answers: Seq<Answer>,
    outcomes: Seq<Outcome>,
)
    requires
        answered(environment, maps, answers, outcomes),
        answers_of(environment, maps, canonical, found, answers),
    ensures
        reconciled(outcomes).disjoint(),
{
    let recon = reconciled(outcomes);
    assert forall|link: DotLinkView, one: Bucket, other: Bucket|
        #![trigger recon.bucket(one).contains(link), recon.bucket(other).contains(link)]
        recon.bucket(one).contains(link) && recon.bucket(other).contains(link) implies one
        == other by {
        lemma_reconciled_members(outcomes, one, link);
        lemma_reconciled_members(outcomes, other, link);
        let i = choose|i: int|
            0 <= i < outcomes.len() && (#[trigger] outcomes[i]).0 == link && bucket_of(
                outcomes[i].1,
            ) == one;
        let j = choose|j: int|
            0 <= j < outcomes.len() && (#[trigger] outcomes[j]).0 == link && bucket_of(
                outcomes[j].1,
            ) == other;
        lemma_status_by_link(environment, maps, canonical, found, answers, outcomes, i);
        lemma_status_by_link(environment, maps, canonical, found, answers, outcomes, j);
    }
}

/// Under a file system that does not change, every link of one run is in
/// the same bucket of another run over mappings that hold all of its own.
proof fn lemma_unchanging_answers_carry_over(
    environment: EnvironmentView,
    canonical: spec_fn(Seq<char>) -> Seq<char>,
    found: spec_fn(Seq<char>) -> FoundView,
    maps: Seq<DotMap>,
    answers: Seq<Answer>,
    outcomes: Seq<Outcome>,
    others: Seq<DotMap>,
    other_answers: Seq<Answer>,
    other_outcomes: Seq<Outcome>,
    bucket: Bucket,
    link: DotLinkView,
)
    requires
        answered(environment, maps, answers, outcomes),
        answers_of(environment, maps, canonical, found, answers),
        answered(environment, others, other_answers, other_outcomes),
        answers_of(environment, others, canonical, found, other_answers),
        all_among(maps, others),
        reconciled(outcomes).bucket(bucket).contains(link),
    ensures
        reconciled(other_outcomes).bucket(bucket).contains(link),
{
    lemma_reconciled_members(outcomes, bucket, link);
    let i = choose|i: int|
        0 <= i < outcomes.len() && (#[trigger] outcomes[i]).0 == link && bucket_of(outcomes[i].1)
            == bucket;
    let j = choose|j: int| 0 <= j < others.len() && (#[trigger] others[j])@ == maps[i]@;
    lemma_status_by_link(environment, maps, canonical, found, answers, outcomes, i);
    lemma_status_by_link(environment, others, canonical, found, other_answers, other_outcomes, j);
    assert(other_outcomes[j] == outcomes[i]);
    lemma_reconciled_members(other_outcomes, bucket, link);
}

/// Under a file system that does not change, two runs over the same
/// mappings hold the same links in each bucket.
proof fn lemma_unchanging_answers_same_bucket(
    environment: EnvironmentView,
    canonical: spec_fn(Seq<char>) -> Seq<char>,
    found: spec_fn(Seq<char>) -> FoundView,
    maps: Seq<DotMap>,
    answers: Seq<Answer>,
    outcomes: Seq<Outcome>,
    others: Seq<DotMap>,
    other_answers: Seq<Answer>,
    other_outcomes: Seq<Outcome>,
    bucket: Bucket,
)
    requires
        answered(environment, maps, answers, outcomes),
        answers_of(environment, maps, canonical, found, answers),
        answered(environment, others, other_answers, other_outcomes),
        answers_of(environment, others, canonical, found, other_answers),
        all_among(maps, others),
        all_among(others, maps),
    ensures
        reconciled(outcomes).bucket(bucket) == reconciled(other_outcomes).bucket(bucket),
{
    let one = reconciled(outcomes).bucket(bucket);
    let other = reconciled(other_outcomes).bucket(bucket);
    assert forall|link: DotLinkView| one.contains(link) == other.contains(link) by {
        if one.contains(link) {
            lemma_unchanging_answers_carry_over(
                environment,
                canonical,
                found,
                maps,
                answers,
                outcomes,
                others,
                other_answers,
                other_outcomes,
                bucket,
                link,
            );
        }
        if other.contains(link) {
            lemma_unchanging_answers_carry_over(
                environment,
                canonical,
                found,
                others,
                other_answers,
                other_outcomes,
                maps,
                answers,
                outcomes,
                bucket,
                link,
            );
        }
    }
    assert(one =~= other);
}

/// Under a file system that does not change, two runs over the same
/// mappings, in whatever order and however often each is given, come to the
/// same reconciliation.
pub proof fn lemma_unchanging_answers_same_reconciliation(
    environment: EnvironmentView,
    canonical: spec_fn(Seq<char>) -> Seq<char>,
    found: spec_fn(Seq<char>) -> FoundView,
    maps: Seq<DotMap>,
    answers: Seq<Answer>,
    outcomes: Seq<Outcome>,
    others: Seq<DotMap>,
    other_answers: Seq<Answer>,
    other_outcomes: Seq<Outcome>,
)
    requires
        answered(environment, maps, answers, outcomes),
        answers_of(environment, maps, canonical, found, answers),
        answered(environment, others, other_answers, other_outcomes),
        answers_of(environment, others, canonical, found, other_answers),
        all_among(maps, others),
        all_among(others, maps),
    ensures
        reconciled(outcomes) == reconciled(other_outcomes),
{
    lemma_unchanging_answers_same_bucket(
        environment, canonical, found, maps, answers, outcomes, others, other_answers,
        other_outcomes, Bucket::Confirmed,
    );
    lemma_unchanging_answers_same_bucket(
        environment, canonical, found, maps, answers, outcomes, others, other_answers,
        other_outcomes, Bucket::Pending,
    );
    lemma_unchanging_answers_same_bucket(
        environment, canonical, found, maps, answers, outcomes, others, other_answers,
        other_outcomes, Bucket::Clobber,
    );
    lemma_unchanging_answers_same_bucket(
        environment, canonical, found, maps, answers, outcomes, others, other_answers,
        other_outcomes, Bucket::Fix,
    );
}

} // verus!
