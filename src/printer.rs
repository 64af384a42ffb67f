use vstd::prelude::*;
use crate::challenge::{version_text, Challenge, ChallengeInfo};
use crate::error::HarvestError;

verus! {

/// One challenge as it is exported at the end of a batch.
pub struct ExportRecord {
    pub target: String,
    pub nb_computer: Option<String>,
    pub nb_domain: Option<String>,
    pub dns_computer: Option<String>,
    pub dns_domain: Option<String>,
    pub dns_tree: Option<String>,
    pub version: Option<String>,
    pub os_names: Option<Vec<String>>,
}

pub open spec fn opt_text(o: Option<String>) -> Option<Seq<char>> {
    match o {
        Some(s) => Some(s@),
        None => None,
    }
}

fn copy_text(o: &Option<String>) -> (r: Option<String>)
    ensures
        r == *o,
{
    match o {
        Some(s) => Some(s.clone()),
        None => None,
    }
}

fn copy_texts(v: &Vec<String>) -> (r: Vec<String>)
    ensures
        r@ == v@,
{
    let mut r: Vec<String> = Vec::new();
    let mut i: usize = 0;
    while i < v.len()
        invariant
            i <= v.len(),
            r@ == v@.subrange(0, i as int),
        decreases v.len() - i,
    {
        r.push(v[i].clone());
        assert(r@ =~= v@.subrange(0, i + 1));
        i = i + 1;
    }
    assert(v@.subrange(0, v@.len() as int) =~= v@);
    r
}

/// Whether `r` is the record of `ch`: its target's text, the names it holds,
/// and, when it reports a version, `major.minor.build` and the systems that
/// have it.
pub open spec fn is_record_of(r: ExportRecord, ch: Challenge) -> bool {
    &&& r.target@ == ch.target.text()
    &&& r.nb_computer == ch.challenge.nb_computer
    &&& r.nb_domain == ch.challenge.nb_domain
    &&& r.dns_computer == ch.challenge.dns_computer
    &&& r.dns_domain == ch.challenge.dns_domain
    &&& r.dns_tree == ch.challenge.dns_tree
    &&& match ch.challenge.version {
        Some(v) => opt_text(r.version) == Some(version_text(v)) && r.os_names is Some
            && r.os_names->0@ == v.os_names@,
        None => r.version is None && r.os_names is None,
    }
}

/// The record of a challenge, as it is exported.
pub fn export_record(ch: &Challenge) -> (r: ExportRecord)
    ensures
        is_record_of(r, *ch),
{
    let c: &ChallengeInfo = &ch.challenge;
    let (version, os_names) = match &c.version {
        Some(v) => (Some(v.to_text()), Some(copy_texts(&v.os_names))),
        None => (None, None),
    };
    ExportRecord {
        target: ch.target.to_text(),
        nb_computer: copy_text(&c.nb_computer),
        nb_domain: copy_text(&c.nb_domain),
        dns_computer: copy_text(&c.dns_computer),
        dns_domain: copy_text(&c.dns_domain),
        dns_tree: copy_text(&c.dns_tree),
        version,
        os_names,
    }
}

/// The challenges of the successful outcomes, in order.
pub open spec fn successes(outs: Seq<Result<Challenge, HarvestError>>) -> Seq<Challenge>
    decreases outs.len(),
{
    if outs.len() == 0 {
        Seq::empty()
    } else {
        let s = successes(outs.drop_last());
        match outs.last() {
            Ok(c) => s.push(c),
            Err(_) => s,
        }
    }
}

/// Collects the challenges of a batch in arrival order, for an optional
/// export at its end.
pub struct Output {
    challenges: Vec<Challenge>,
    out_file: Option<String>,
}

impl Output {
    /// The challenges collected so far, in arrival order.
    pub closed spec fn collected(&self) -> Seq<Challenge> {
        self.challenges@
    }

    /// Where the batch is exported, if anywhere.
    pub closed spec fn destination(&self) -> Option<String> {
        self.out_file
    }

    pub fn new(out_file: Option<String>) -> (r: Self)
        ensures
            r.collected() == Seq::<Challenge>::empty(),
            r.destination() == out_file,
    {
        Output { challenges: Vec::new(), out_file }
    }

    /// Keeps a challenge that has just arrived (and been printed).
    pub fn add(&mut self, ch: Challenge)
        ensures
            final(self).collected() == old(self).collected().push(ch),
            final(self).destination() == old(self).destination(),
    {
        self.challenges.push(ch);
    }

    /// Takes the outcome of one task: a challenge is kept, a failure is not.
    pub fn record(&mut self, outcome: Result<Challenge, HarvestError>)
        ensures
            forall|prior: Seq<Result<Challenge, HarvestError>>|
                old(self).collected() == successes(prior) ==> final(self).collected()
                    == #[trigger] successes(prior.push(outcome)),
            final(self).destination() == old(self).destination(),
            match outcome {
                Ok(c) => final(self).collected() == old(self).collected().push(c),
                Err(_) => final(self).collected() == old(self).collected(),
            },
    {
        let ghost o = outcome;
        match outcome {
            Ok(c) => self.add(c),
            Err(_) => {},
        }
        assert forall|prior: Seq<Result<Challenge, HarvestError>>|
            old(self).collected() == successes(prior) implies final(self).collected()
                == #[trigger] successes(prior.push(o)) by {
            assert(prior.push(o).drop_last() =~= prior);
        }
    }

    /// How many challenges were collected.
    pub fn len(&self) -> (r: usize)
        ensures
            r == self.collected().len(),
    {
        self.challenges.len()
    }

    /// What is left to do at the end of the batch: the destination and the
    /// records to write there, one per collected challenge in order, or
    /// nothing when there is no destination.
    pub fn finish(&self) -> (r: Option<(String, Vec<ExportRecord>)>)
        ensures
            match (self.destination(), r) {
                (None, None) => true,
                (Some(f), Some((g, recs))) => g == f && recs@.len() == self.collected().len()
                    && forall|i: int|
                    0 <= i < recs@.len() ==> is_record_of(
                        #[trigger] recs@[i],
                        self.collected()[i],
                    ),
                _ => false,
            },
    {
        match &self.out_file {
            None => None,
            Some(f) => {
                let mut records: Vec<ExportRecord> = Vec::new();
                let mut i: usize = 0;
                while i < self.challenges.len()
                    invariant
                        i <= self.challenges.len(),
                        records@.len() == i,
                        forall|j: int|
                            0 <= j < i ==> is_record_of(#[trigger] records@[j], self.challenges@[j]),
                    decreases self.challenges.len() - i,
                {
                    records.push(export_record(&self.challenges[i]));
                    i = i + 1;
                }
                Some((f.clone(), records))
            },
        }
    }
}

/// The collector keeps exactly the successful outcomes of a batch: as many
/// as there were successes, each the challenge of one of them, and no failure.
pub proof fn lemma_collected_counts_successes(outs: Seq<Result<Challenge, HarvestError>>)
    ensures
        successes(outs).len() == outs.filter(|o: Result<Challenge, HarvestError>| o is Ok).len(),
        forall|i: int|
            0 <= i < successes(outs).len() ==> exists|j: int|
                0 <= j < outs.len() && outs[j] == Ok::<Challenge, HarvestError>(
                    #[trigger] successes(outs)[i],
                ),
    decreases outs.len(),
{
    reveal(Seq::filter);
    if outs.len() > 0 {
        let prev = outs.drop_last();
        lemma_collected_counts_successes(prev);
        assert forall|i: int| 0 <= i < successes(outs).len() implies exists|j: int|
            0 <= j < outs.len() && outs[j] == Ok::<Challenge, HarvestError>(
                #[trigger] successes(outs)[i],
            ) by {
            if i < successes(prev).len() {
                let j = choose|j: int|
                    0 <= j < prev.len() && prev[j] == Ok::<Challenge, HarvestError>(
                        successes(prev)[i],
                    );
                assert(outs[j] == prev[j]);
                assert(successes(outs)[i] == successes(prev)[i]);
            } else {
                assert(outs[outs.len() - 1] == outs.last());
            }
        }
    }
}

} // verus!
