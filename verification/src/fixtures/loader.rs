use vstd::prelude::*;
use crate::text::{push_str, string_of};

verus! {

/// A set of seed data that can be loaded into the database.
pub trait Fixture {
    /// The order the fixture runs in, lower first.
    spec fn spec_order(&self) -> i32;

    /// Whether the fixture runs at all.
    spec fn spec_enabled(&self) -> bool;

    /// The fixture's name.
    fn name(&self) -> &str;

    /// What the fixture loads.
    fn description(&self) -> &str;

    /// The order the fixture runs in, lower first.
    fn order(&self) -> (r: i32)
        ensures
            r == self.spec_order(),
    ;

    /// Whether the fixture runs at all.
    fn enabled(&self) -> (r: bool)
        ensures
            r == self.spec_enabled(),
    ;
}

/// The number of enabled fixtures among `fs`.
pub open spec fn count_enabled<F: Fixture>(fs: Seq<F>) -> nat
    decreases fs.len(),
{
    if fs.len() == 0 {
        0
    } else {
        count_enabled(fs.drop_last()) + if fs.last().spec_enabled() {
            1nat
        } else {
            0nat
        }
    }
}

/// Fixture `a` runs before fixture `b` (positions in `fs`): a lower order
/// first, and among equal orders the one added first.
pub open spec fn runs_before<F: Fixture>(fs: Seq<F>, a: int, b: int) -> bool {
    fs[a].spec_order() < fs[b].spec_order() || (fs[a].spec_order() == fs[b].spec_order() && a < b)
}

/// `plan` lists the positions of exactly the enabled fixtures, each once, in
/// the order they run: sorted by order, ties kept in the order they were
/// added.
pub open spec fn is_run_plan<F: Fixture>(fs: Seq<F>, plan: Seq<usize>) -> bool {
    &&& forall|k: int| 0 <= k < plan.len() ==> (#[trigger] plan[k]) < fs.len()
    &&& forall|x: int| 0 <= x < fs.len() ==> (fs[x].spec_enabled() <==> plan.contains(x as usize))
    &&& forall|a: int, b: int|
        0 <= a < b < plan.len() ==> runs_before(fs, #[trigger] plan[a] as int, #[trigger] plan[b] as int)
}

/// Loads fixtures.
pub struct FixtureLoader<F> {
    fixtures: Vec<F>,
}

impl<F: Fixture> FixtureLoader<F> {
    /// The fixtures, in the order they were added.
    pub closed spec fn view(&self) -> Seq<F> {
        self.fixtures@
    }

    /// A loader with no fixtures.
    pub fn new() -> (l: Self)
        ensures
            l.view() == Seq::<F>::empty(),
    {
        FixtureLoader { fixtures: Vec::new() }
    }

    /// Adds a fixture; gives back the loader, so that calls chain.
    pub fn add_fixture(&mut self, fixture: F) -> (r: &mut Self)
        ensures
            r.view() == old(self).view().push(fixture),
            *final(self) == *final(r),
    {
        self.fixtures.push(fixture);
        self
    }

    /// Adds fixtures, in order; gives back the loader, so that calls chain.
    pub fn add_fixtures(&mut self, fixtures: Vec<F>) -> (r: &mut Self)
        ensures
            r.view() == old(self).view() + fixtures@,
            *final(self) == *final(r),
    {
        let mut fixtures = fixtures;
        let mut rest: Vec<F> = Vec::new();
        let ghost all = fixtures@;
        // Take them from the back, then add them from the front.
        while fixtures.len() > 0
            invariant
                all == fixtures@ + rest@.reverse(),
                self.fixtures@ == old(self).fixtures@,
            decreases fixtures@.len(),
        {
            let f = fixtures.pop().unwrap();
            rest.push(f);
            assert(all =~= fixtures@ + rest@.reverse());
        }
        assert(all =~= rest@.reverse());
        while rest.len() > 0
            invariant
                self.fixtures@ + rest@.reverse() == old(self).fixtures@ + all,
            decreases rest@.len(),
        {
            let ghost before = rest@;
            let f = rest.pop().unwrap();
            assert(before.reverse() =~= seq![f] + rest@.reverse());
            self.fixtures.push(f);
            assert(self.fixtures@ + rest@.reverse() =~= old(self).fixtures@ + all);
        }
        assert(self.fixtures@ =~= old(self).fixtures@ + all);
        self
    }

    /// The number of fixtures added.
    pub fn count(&self) -> (n: usize)
        ensures
            n == self.view().len(),
    {
        self.fixtures.len()
    }

    /// The number of enabled fixtures.
    pub fn enabled_count(&self) -> (n: usize)
        ensures
            n == count_enabled(self.view()),
    {
        let mut n: usize = 0;
        let mut i: usize = 0;
        while i < self.fixtures.len()
            invariant
                i <= self.fixtures@.len(),
                n == count_enabled(self.fixtures@.take(i as int)),
                n <= i,
            decreases self.fixtures@.len() - i,
        {
            assert(self.fixtures@.take(i + 1).drop_last() =~= self.fixtures@.take(i as int));
            if self.fixtures[i].enabled() {
                n = n + 1;
            }
            i = i + 1;
        }
        assert(self.fixtures@.take(self.fixtures@.len() as int) =~= self.fixtures@);
        n
    }

    /// The fixture at `i`.
    pub fn get(&self, i: usize) -> (f: &F)
        requires
            i < self.view().len(),
        ensures
            *f == self.view()[i as int],
    {
        &self.fixtures[i]
    }

    /// Starts a run: the purge when `purge` is set, then the enabled fixtures
    /// in the order they run. Gives back the run and its first action.
    pub fn start_run(&self, purge: bool) -> (r: (LoaderRun, LoadAction))
        ensures
            is_run_plan(self.view(), r.0.plan()),
            r.0.steps() == run_steps(purge, r.0.plan()),
            r.0.position() == 0,
            !r.0.has_failed(),
            r.0.steps().len() == 0 ==> r.0.is_done() && r.1 == LoadAction::Finish(true),
            r.0.steps().len() > 0 ==> !r.0.is_done() && r.1 == r.0.steps()[0],
    {
        let plan = self.execution_order();
        LoaderRun::begin(purge, plan)
    }

    /// The positions of the fixtures that run, in the order they run.
    pub fn execution_order(&self) -> (plan: Vec<usize>)
        ensures
            is_run_plan(self.view(), plan@),
    {
        let fs = &self.fixtures;
        let mut plan: Vec<usize> = Vec::new();
        let mut i: usize = 0;
        while i < fs.len()
            invariant
                i <= fs@.len(),
                plan_upto(fs@, plan@, i as int),
            decreases fs@.len() - i,
        {
            if fs[i].enabled() {
                insert_in_order(fs, &mut plan, i);
            } else {
                assert forall|x: int| 0 <= x < i + 1 implies (fs@[x].spec_enabled()
                    <==> plan@.contains(x as usize)) by {
                    if x == i && plan@.contains(x as usize) {
                        let k = choose|k: int| 0 <= k < plan@.len() && plan@[k] == x as usize;
                    }
                }
            }
            i = i + 1;
        }
        plan
    }
}

/// What a run of the loader asks to be done next, or its end.
#[derive(Debug, Clone, Copy, PartialEq, Eq, Structural)]
pub enum LoadAction {
    /// Open the connection that the purge uses.
    Connect,
    /// Empty the table at this index of `purge_order()`.
    Delete(usize),
    /// Load the fixture at this position of the loader.
    Load(usize),
    /// The run is over: `true` when every step succeeded.
    Finish(bool),
}

/// The number of tables that a purge empties.
pub const PURGE_TABLE_COUNT: usize = 12;

/// The steps of a purge: connect, then empty each table in `purge_order()`.
pub open spec fn purge_steps() -> Seq<LoadAction> {
    seq![LoadAction::Connect] + Seq::new(
        PURGE_TABLE_COUNT as nat,
        |i: int| LoadAction::Delete(i as usize),
    )
}

/// The steps of a run: the purge when asked for, then each fixture of
/// `plan` in turn.
pub open spec fn run_steps(purge: bool, plan: Seq<usize>) -> Seq<LoadAction> {
    (if purge {
        purge_steps()
    } else {
        Seq::empty()
    }) + plan.map_values(|p: usize| LoadAction::Load(p))
}

/// A run of the loader: the purge when asked for, then the enabled fixtures
/// in the order they run, stopping at the first step that fails.
pub struct LoaderRun {
    purge: bool,
    plan: Vec<usize>,
    loading: bool,
    index: usize,
    done: bool,
    failed: bool,
}

impl LoaderRun {
    #[verifier::type_invariant]
    spec fn inv(self) -> bool {
        &&& !self.loading ==> self.purge && self.index <= PURGE_TABLE_COUNT
        &&& !self.done && self.loading ==> self.index < self.plan@.len()
        &&& self.failed ==> self.done
    }

    /// The steps of the whole run, in order.
    pub closed spec fn steps(&self) -> Seq<LoadAction> {
        run_steps(self.purge, self.plan@)
    }

    /// The fixture positions that the run loads, in order.
    pub closed spec fn plan(&self) -> Seq<usize> {
        self.plan@
    }

    /// Whether the run purges first.
    pub closed spec fn purges(&self) -> bool {
        self.purge
    }

    /// The index in `steps()` of the step now under way, or of the last one
    /// once the run is over.
    pub closed spec fn position(&self) -> nat {
        if self.loading {
            ((if self.purge {
                PURGE_TABLE_COUNT + 1
            } else {
                0
            }) + self.index) as nat
        } else {
            self.index as nat
        }
    }

    /// Whether the run is over.
    pub closed spec fn is_done(&self) -> bool {
        self.done
    }

    /// Whether the run ended on a failed step.
    pub closed spec fn has_failed(&self) -> bool {
        self.failed
    }

    proof fn lemma_steps(self)
        ensures
            self.purge ==> self.steps().len() == PURGE_TABLE_COUNT + 1 + self.plan@.len(),
            !self.purge ==> self.steps().len() == self.plan@.len(),
            self.purge ==> self.steps()[0] == LoadAction::Connect,
            self.purge ==> forall|i: int|
                1 <= i <= PURGE_TABLE_COUNT ==> #[trigger] self.steps()[i] == LoadAction::Delete(
                    (i - 1) as usize,
                ),
            forall|j: int|
                0 <= j < self.plan@.len() ==> self.steps()[(if self.purge {
                    PURGE_TABLE_COUNT + 1
                } else {
                    0
                }) + j] == LoadAction::Load(#[trigger] self.plan@[j]),
    {
    }

    /// Starts a run over `plan`: gives back the run and its first action.
    fn begin(purge: bool, plan: Vec<usize>) -> (r: (LoaderRun, LoadAction))
        ensures
            r.0.steps() == run_steps(purge, plan@),
            r.0.plan() == plan@,
            r.0.purges() == purge,
            r.0.position() == 0,
            !r.0.has_failed(),
            r.0.steps().len() == 0 ==> r.0.is_done() && r.1 == LoadAction::Finish(true),
            r.0.steps().len() > 0 ==> !r.0.is_done() && r.1 == r.0.steps()[0],
    {
        if purge {
            let run = LoaderRun { purge, plan, loading: false, index: 0, done: false, failed: false };
            proof {
                run.lemma_steps();
            }
            (run, LoadAction::Connect)
        } else if plan.len() > 0 {
            let first = plan[0];
            let run = LoaderRun { purge, plan, loading: true, index: 0, done: false, failed: false };
            proof {
                run.lemma_steps();
                assert(run.steps()[0int] == LoadAction::Load(first));
            }
            (run, LoadAction::Load(first))
        } else {
            let run = LoaderRun { purge, plan, loading: true, index: 0, done: true, failed: false };
            proof {
                run.lemma_steps();
            }
            (run, LoadAction::Finish(true))
        }
    }

    /// Whether the run is over.
    pub fn finished(&self) -> (r: bool)
        ensures
            r == self.is_done(),
    {
        self.done
    }

    /// Takes the outcome of the step under way (`ok` when it succeeded) and
    /// gives the next action: the next step, or the end of the run, which a
    /// failed step brings at once.
    pub fn step(&mut self, ok: bool) -> (a: LoadAction)
        requires
            !old(self).is_done(),
        ensures
            final(self).steps() == old(self).steps(),
            final(self).plan() == old(self).plan(),
            final(self).purges() == old(self).purges(),
            !ok ==> {
                &&& a == LoadAction::Finish(false)
                &&& final(self).is_done()
                &&& final(self).has_failed()
                &&& final(self).position() == old(self).position()
            },
            ok && old(self).position() + 1 < old(self).steps().len() ==> {
                &&& a == old(self).steps()[old(self).position() + 1int]
                &&& !final(self).is_done()
                &&& final(self).position() == old(self).position() + 1
            },
            ok && old(self).position() + 1 >= old(self).steps().len() ==> {
                &&& a == LoadAction::Finish(true)
                &&& final(self).is_done()
                &&& !final(self).has_failed()
                &&& final(self).position() == old(self).position()
            },
    {
        proof {
            use_type_invariant(&*self);
            self.lemma_steps();
        }
        if !ok {
            self.done = true;
            self.failed = true;
            return LoadAction::Finish(false);
        }
        if !self.loading {
            if self.index < PURGE_TABLE_COUNT {
                let table = self.index;
                self.index = self.index + 1;
                proof {
                    assert(old(self).steps()[self.index as int] == LoadAction::Delete(table));
                }
                LoadAction::Delete(table)
            } else if self.plan.len() > 0 {
                let first = self.plan[0];
                self.index = 0;
                self.loading = true;
                proof {
                    assert(old(self).steps()[(PURGE_TABLE_COUNT + 1) + 0] == LoadAction::Load(
                        first,
                    ));
                }
                LoadAction::Load(first)
            } else {
                self.done = true;
                LoadAction::Finish(true)
            }
        } else if self.index < self.plan.len() - 1 {
            self.index = self.index + 1;
            let next = self.plan[self.index];
            proof {
                assert(old(self).steps()[(if self.purge {
                    PURGE_TABLE_COUNT + 1
                } else {
                    0
                }) + self.index] == LoadAction::Load(next));
            }
            LoadAction::Load(next)
        } else {
            self.done = true;
            LoadAction::Finish(true)
        }
    }
}

/// `plan` is the run plan of the first `i` fixtures.
pub open spec fn plan_upto<F: Fixture>(fs: Seq<F>, plan: Seq<usize>, i: int) -> bool {
    &&& forall|k: int| 0 <= k < plan.len() ==> (#[trigger] plan[k]) < i
    &&& forall|x: int| 0 <= x < i ==> (fs[x].spec_enabled() <==> plan.contains(x as usize))
    &&& forall|a: int, b: int|
        0 <= a < b < plan.len() ==> runs_before(fs, #[trigger] plan[a] as int, #[trigger] plan[b] as int)
}

#[verifier::spinoff_prover]
#[verifier::rlimit(60)]
fn insert_in_order<F: Fixture>(fs: &Vec<F>, plan: &mut Vec<usize>, i: usize)
    requires
        i < fs@.len(),
        fs@[i as int].spec_enabled(),
        plan_upto(fs@, old(plan)@, i as int),
    ensures
        plan_upto(fs@, final(plan)@, i + 1),
{
    let key = fs[i].order();
    let mut p: usize = 0;
    while p < plan.len() && fs[plan[p]].order() <= key
        invariant
            p <= plan@.len(),
            i < fs@.len(),
            key == fs@[i as int].spec_order(),
            plan@ == old(plan)@,
            forall|k: int| 0 <= k < plan@.len() ==> (#[trigger] plan@[k]) < i,
            forall|k: int| 0 <= k < p ==> fs@[plan@[k] as int].spec_order() <= key,
        decreases plan@.len() - p,
    {
        p = p + 1;
    }
    let ghost old_plan = plan@;
    assert forall|k: int| p <= k < old_plan.len() implies fs@[old_plan[k] as int].spec_order()
        > key by {
        if k > p {
            assert(runs_before(fs@, old_plan[p as int] as int, old_plan[k] as int));
        }
    }
    plan.insert(p, i);
    assert forall|x: int| 0 <= x < i + 1 implies (fs@[x].spec_enabled()
        <==> plan@.contains(x as usize)) by {
        if x < i {
            if old_plan.contains(x as usize) {
                let k = choose|k: int| 0 <= k < old_plan.len() && old_plan[k] == x as usize;
                let k2 = if k < p { k } else { k + 1 };
                assert(plan@[k2] == x as usize);
            }
            if plan@.contains(x as usize) {
                let k = choose|k: int| 0 <= k < plan@.len() && plan@[k] == x as usize;
                if k < p {
                    assert(old_plan[k] == x as usize);
                } else if k > p {
                    assert(old_plan[k - 1] == x as usize);
                }
            }
        } else {
            assert(plan@[p as int] == i);
        }
    }
    assert forall|a: int, b: int| 0 <= a < b < plan@.len() implies runs_before(
        fs@,
        #[trigger] plan@[a] as int,
        #[trigger] plan@[b] as int,
    ) by {
        if a < p && b < p {
            assert(plan@[a] == old_plan[a] && plan@[b] == old_plan[b]);
        } else if a < p && b == p {
            assert(plan@[a] == old_plan[a]);
        } else if a < p && b > p {
            assert(plan@[a] == old_plan[a] && plan@[b] == old_plan[b - 1]);
        } else if a == p {
            assert(plan@[b] == old_plan[b - 1]);
        } else {
            assert(plan@[a] == old_plan[a - 1] && plan@[b] == old_plan[b - 1]);
        }
    }
    assert forall|k: int| 0 <= k < plan@.len() implies (#[trigger] plan@[k]) < i + 1 by {
        if k < p {
            assert(plan@[k] == old_plan[k]);
        } else if k > p {
            assert(plan@[k] == old_plan[k - 1]);
        }
    }
}

/// The tables emptied when the database is purged before seeding, in order:
/// each table before the tables it refers to.
pub open spec fn purge_tables() -> Seq<Seq<char>> {
    seq![
        "order_items"@,
        "orders"@,
        "addresses"@,
        "products"@,
        "contacts"@,
        "audit_logs"@,
        "customers"@,
        "brands"@,
        "categories"@,
        "organizations"@,
        "users"@,
        "accounts"@,
    ]
}

/// The tables to empty when purging, in order.
pub fn purge_order() -> (r: Vec<&'static str>)
    ensures
        r@.map_values(|t: &str| t@) == purge_tables(),
{
    let mut r: Vec<&'static str> = Vec::new();
    r.push("order_items");
    r.push("orders");
    r.push("addresses");
    r.push("products");
    r.push("contacts");
    r.push("audit_logs");
    r.push("customers");
    r.push("brands");
    r.push("categories");
    r.push("organizations");
    r.push("users");
    r.push("accounts");
    assert(r@.map_values(|t: &str| t@) =~= purge_tables());
    r
}

/// The line announcing a fixture: its name, and its description after a
/// dash when it has one.
pub open spec fn loading_text(name: Seq<char>, description: Seq<char>) -> Seq<char> {
    if description.len() == 0 {
        "Loading: "@ + name
    } else {
        "Loading: "@ + name + " - "@ + description
    }
}

/// The line announcing a fixture.
pub fn loading_line(name: &str, description: &str) -> (r: String)
    ensures
        r@ == loading_text(name@, description@),
{
    let mut r = string_of("Loading: ");
    push_str(&mut r, name);
    if description.unicode_len() > 0 {
        push_str(&mut r, " - ");
        push_str(&mut r, description);
    }
    r
}

} // verus!
