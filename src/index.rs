use vstd::prelude::*;

use crate::catalog::Job;
use crate::class::Class;

verus! {

/// Holds a job exactly when it belongs to class `c`.
pub open spec fn of_class(c: Class) -> spec_fn(Job) -> bool {
    |j: Job| j.class == c
}

/// The catalog grouped by class: one bucket for each of the five classes, each
/// holding the positions of that class's jobs in catalog order.
pub struct ClassIndex {
    jobs: Vec<Job>,
    warrior: Vec<usize>,
    magician: Vec<usize>,
    bowman: Vec<usize>,
    thief: Vec<usize>,
    pirate: Vec<usize>,
}

impl ClassIndex {
    /// The catalog that the index was built from.
    pub closed spec fn catalog(&self) -> Seq<Job> {
        self.jobs@
    }

    closed spec fn positions(&self, c: Class) -> Seq<usize> {
        match c {
            Class::Warrior => self.warrior@,
            Class::Magician => self.magician@,
            Class::Bowman => self.bowman@,
            Class::Thief => self.thief@,
            Class::Pirate => self.pirate@,
        }
    }

    /// The jobs of class `c`, in catalog order.
    pub closed spec fn bucket(&self, c: Class) -> Seq<Job> {
        self.positions(c).map_values(|k: usize| self.jobs@[k as int])
    }

    /// Every bucket holds exactly its class's jobs, in catalog order.
    pub closed spec fn wf(&self) -> bool {
        &&& forall|c: Class, k: int|
            0 <= k < self.positions(c).len() ==> #[trigger] self.positions(c)[k] < self.jobs@.len()
        &&& forall|c: Class| #[trigger] self.bucket(c) == self.jobs@.filter(of_class(c))
    }

    /// Groups the catalog by class, keeping catalog order inside each bucket.
    pub fn build(catalog: Vec<Job>) -> (r: ClassIndex)
        ensures
            r.wf(),
            r.catalog() == catalog@,
            forall|c: Class| #[trigger] r.bucket(c) == catalog@.filter(of_class(c)),
    {
        let ghost all = catalog@;
        let n = catalog.len();
        let mut idx = ClassIndex {
            jobs: catalog,
            warrior: Vec::new(),
            magician: Vec::new(),
            bowman: Vec::new(),
            thief: Vec::new(),
            pirate: Vec::new(),
        };
        let mut i: usize = 0;
        proof {
            assert forall|c: Class| #[trigger] idx.bucket(c) == all.take(0).filter(of_class(c)) by {
                assert(all.take(0) =~= Seq::<Job>::empty());
                reveal(Seq::filter);
                assert(idx.bucket(c) =~= Seq::<Job>::empty());
            }
        }
        while i < n
            invariant
                idx.jobs@ == all,
                n == all.len(),
                i <= n,
                forall|c: Class, k: int|
                    0 <= k < idx.positions(c).len() ==> #[trigger] idx.positions(c)[k] < i,
                forall|c: Class| #[trigger] idx.bucket(c) == all.take(i as int).filter(of_class(c)),
            decreases n - i,
        {
            let ghost before = idx;
            let c = idx.jobs[i].class;
            match c {
                Class::Warrior => idx.warrior.push(i),
                Class::Magician => idx.magician.push(i),
                Class::Bowman => idx.bowman.push(i),
                Class::Thief => idx.thief.push(i),
                Class::Pirate => idx.pirate.push(i),
            }
            proof {
                assert(all.take(i + 1) =~= all.take(i as int).push(all[i as int]));
                assert forall|d: Class| #[trigger]
                    idx.bucket(d) == all.take(i + 1).filter(of_class(d)) by {
                    all.take(i as int).lemma_filter_push(all[i as int], of_class(d));
                    if d == c {
                        assert(idx.positions(d) =~= before.positions(d).push(i));
                        assert(idx.bucket(d) =~= before.bucket(d).push(all[i as int]));
                    } else {
                        assert(idx.positions(d) == before.positions(d));
                        assert(idx.bucket(d) =~= before.bucket(d));
                    }
                }
                assert forall|d: Class, k: int|
                    0 <= k < idx.positions(d).len() implies #[trigger] idx.positions(d)[k] < i + 1 by {
                    if d == c {
                        assert(idx.positions(d) =~= before.positions(d).push(i));
                        if k < before.positions(d).len() {
                            assert(before.positions(d)[k] < i);
                        }
                    } else {
                        assert(idx.positions(d) == before.positions(d));
                        assert(before.positions(d)[k] < i);
                    }
                }
            }
            i = i + 1;
        }
        proof {
            assert(all.take(n as int) =~= all);
            assert forall|c: Class, k: int|
                0 <= k < idx.positions(c).len() implies #[trigger] idx.positions(c)[k] < idx.jobs@.len() by {
                assert(idx.positions(c)[k] < n);
            }
        }
        idx
    }

    /// How many jobs class `c` has.
    pub fn count(&self, c: Class) -> (r: usize)
        requires
            self.wf(),
        ensures
            r == self.bucket(c).len(),
    {
        match c {
            Class::Warrior => self.warrior.len(),
            Class::Magician => self.magician.len(),
            Class::Bowman => self.bowman.len(),
            Class::Thief => self.thief.len(),
            Class::Pirate => self.pirate.len(),
        }
    }

    /// The `k`-th job of class `c`.
    pub fn job_at(&self, c: Class, k: usize) -> (r: &Job)
        requires
            self.wf(),
            k < self.bucket(c).len(),
        ensures
            *r == self.bucket(c)[k as int],
    {
        let p = match c {
            Class::Warrior => self.warrior[k],
            Class::Magician => self.magician[k],
            Class::Bowman => self.bowman[k],
            Class::Thief => self.thief[k],
            Class::Pirate => self.pirate[k],
        };
        assert(self.positions(c)[k as int] < self.jobs@.len());
        &self.jobs[p]
    }
}

/// The sum of the lengths of the five class buckets of `jobs`.
pub open spec fn bucket_total(jobs: Seq<Job>) -> nat {
    jobs.filter(of_class(Class::Warrior)).len() + jobs.filter(of_class(Class::Magician)).len()
        + jobs.filter(of_class(Class::Bowman)).len() + jobs.filter(of_class(Class::Thief)).len()
        + jobs.filter(of_class(Class::Pirate)).len()
}

/// Grouping loses and duplicates no job: the buckets together are exactly as
/// long as the catalog, and each job stands in the bucket of its own class.
pub proof fn lemma_index_complete(index: ClassIndex)
    requires
        index.wf(),
    ensures
        index.bucket(Class::Warrior).len() + index.bucket(Class::Magician).len()
            + index.bucket(Class::Bowman).len() + index.bucket(Class::Thief).len()
            + index.bucket(Class::Pirate).len() == index.catalog().len(),
        forall|i: int|
            0 <= i < index.catalog().len() ==> index.bucket(index.catalog()[i].class).contains(
                #[trigger] index.catalog()[i],
            ),
{
    let jobs = index.catalog();
    lemma_bucket_total(jobs);
    assert(index.bucket(Class::Warrior) == jobs.filter(of_class(Class::Warrior)));
    assert(index.bucket(Class::Magician) == jobs.filter(of_class(Class::Magician)));
    assert(index.bucket(Class::Bowman) == jobs.filter(of_class(Class::Bowman)));
    assert(index.bucket(Class::Thief) == jobs.filter(of_class(Class::Thief)));
    assert(index.bucket(Class::Pirate) == jobs.filter(of_class(Class::Pirate)));
    assert forall|i: int| 0 <= i < jobs.len() implies index.bucket(jobs[i].class).contains(
        #[trigger] jobs[i],
    ) by {
        assert(index.bucket(jobs[i].class) == jobs.filter(of_class(jobs[i].class)));
        jobs.lemma_filter_contains(of_class(jobs[i].class), i);
    }
}

/// Every job falls in exactly one of the five class filters.
proof fn lemma_bucket_total(jobs: Seq<Job>)
    ensures
        bucket_total(jobs) == jobs.len(),
    decreases jobs.len(),
{
    if jobs.len() == 0 {
        reveal(Seq::filter);
    } else {
        let rest = jobs.drop_last();
        let last = jobs.last();
        lemma_bucket_total(rest);
        assert(jobs =~= rest.push(last));
        rest.lemma_filter_push(last, of_class(Class::Warrior));
        rest.lemma_filter_push(last, of_class(Class::Magician));
        rest.lemma_filter_push(last, of_class(Class::Bowman));
        rest.lemma_filter_push(last, of_class(Class::Thief));
        rest.lemma_filter_push(last, of_class(Class::Pirate));
    }
}

} // verus!
