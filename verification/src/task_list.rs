//! The scheduled-task list: which tasks are listed, how they are grouped by
//! category (categories in order, tasks by name within a category), and the
//! status badge and controls of a task row.

use vstd::prelude::*;
use crate::text::{chars_of, string_of, str_eq};

verus! {

/// What the task list knows of a scheduled task.
pub struct TaskSummary {
    pub name: String,
    pub category: Option<String>,
    /// `Running`, `Idle`, …
    pub state: Option<String>,
    /// The status of the last run: `Completed`, `Failed`, …
    pub last_status: Option<String>,
}

/// `a` comes before `b` in the lexicographic order of their characters
/// (the order in which `String`s compare).
pub open spec fn lex_lt(a: Seq<char>, b: Seq<char>) -> bool
    decreases a.len(),
{
    if a.len() == 0 {
        b.len() > 0
    } else if b.len() == 0 {
        false
    } else if a[0] != b[0] {
        (a[0] as int) < (b[0] as int)
    } else {
        lex_lt(a.drop_first(), b.drop_first())
    }
}

proof fn lemma_lex_irreflexive(a: Seq<char>)
    ensures
        !lex_lt(a, a),
    decreases a.len(),
{
    if a.len() > 0 {
        lemma_lex_irreflexive(a.drop_first());
    }
}

proof fn lemma_lex_asymmetric(a: Seq<char>, b: Seq<char>)
    requires
        lex_lt(a, b),
    ensures
        !lex_lt(b, a),
    decreases a.len(),
{
    if a.len() > 0 && b.len() > 0 && a[0] == b[0] {
        lemma_lex_asymmetric(a.drop_first(), b.drop_first());
    }
}

proof fn lemma_lex_transitive(a: Seq<char>, b: Seq<char>, c: Seq<char>)
    requires
        lex_lt(a, b),
        lex_lt(b, c),
    ensures
        lex_lt(a, c),
    decreases a.len(),
{
    if a.len() > 0 && b.len() > 0 && c.len() > 0 && a[0] == b[0] && b[0] == c[0] {
        lemma_lex_transitive(a.drop_first(), b.drop_first(), c.drop_first());
    }
}

proof fn lemma_lex_total(a: Seq<char>, b: Seq<char>)
    requires
        a != b,
    ensures
        lex_lt(a, b) || lex_lt(b, a),
    decreases a.len(),
{
    if a.len() == 0 && b.len() == 0 {
        assert(a =~= b);
    }
    if a.len() > 0 && b.len() > 0 && a[0] == b[0] {
        if a.drop_first() == b.drop_first() {
            assert(a =~= seq![a[0]] + a.drop_first());
            assert(b =~= seq![b[0]] + b.drop_first());
        }
        lemma_lex_total(a.drop_first(), b.drop_first());
    }
}

fn lex_lt_exec(a: &Vec<char>, b: &Vec<char>) -> (r: bool)
    ensures
        r == lex_lt(a@, b@),
{
    let mut i: usize = 0;
    proof {
        assert(a@.skip(0) =~= a@);
        assert(b@.skip(0) =~= b@);
    }
    while i < a.len() && i < b.len() && a[i] == b[i]
        invariant
            i <= a@.len(),
            i <= b@.len(),
            a@.take(i as int) == b@.take(i as int),
            lex_lt(a@, b@) == lex_lt(a@.skip(i as int), b@.skip(i as int)),
        decreases a@.len() - i,
    {
        proof {
            let sa = a@.skip(i as int);
            let sb = b@.skip(i as int);
            assert(sa.drop_first() =~= a@.skip(i + 1));
            assert(sb.drop_first() =~= b@.skip(i + 1));
            assert(a@.take(i + 1) =~= a@.take(i as int).push(a@[i as int]));
            assert(b@.take(i + 1) =~= b@.take(i as int).push(b@[i as int]));
        }
        i = i + 1;
    }
    if i == a.len() {
        i < b.len()
    } else if i == b.len() {
        false
    } else {
        proof {
            assert(a@.skip(i as int)[0] == a@[i as int]);
            assert(b@.skip(i as int)[0] == b@[i as int]);
        }
        a[i] < b[i]
    }
}

/// The category a task is listed under: its own, or `Other`.
pub open spec fn category_of(t: TaskSummary) -> Seq<char> {
    match t.category {
        Some(c) => c@,
        None => "Other"@,
    }
}

/// The task is running.
pub open spec fn is_running(t: TaskSummary) -> bool {
    t.state matches Some(s) && s@ == "Running"@
}

/// The task is listed: every task, or only running ones when the list shows
/// running tasks only.
pub open spec fn is_listed(t: TaskSummary, running_only: bool) -> bool {
    !running_only || is_running(t)
}

/// Task `i` is listed before task `j`: by category, then by name, then in
/// the order the server sent them.
pub open spec fn task_before(tasks: Seq<TaskSummary>, i: int, j: int) -> bool {
    let ci = category_of(tasks[i]);
    let cj = category_of(tasks[j]);
    lex_lt(ci, cj) || (ci == cj && (lex_lt(tasks[i].name@, tasks[j].name@) || (tasks[i].name@
        == tasks[j].name@ && i < j)))
}

/// The positions are in listing order.
pub open spec fn sorted_tasks(tasks: Seq<TaskSummary>, s: Seq<usize>) -> bool {
    forall|a: int, b: int|
        0 <= a < b < s.len() ==> #[trigger] task_before(tasks, s[a] as int, s[b] as int)
}

proof fn lemma_before_irreflexive(tasks: Seq<TaskSummary>, i: int)
    ensures
        !task_before(tasks, i, i),
{
    lemma_lex_irreflexive(category_of(tasks[i]));
    lemma_lex_irreflexive(tasks[i].name@);
}

proof fn lemma_before_transitive(tasks: Seq<TaskSummary>, i: int, j: int, k: int)
    requires
        task_before(tasks, i, j),
        task_before(tasks, j, k),
    ensures
        task_before(tasks, i, k),
{
    let (ci, cj, ck) = (category_of(tasks[i]), category_of(tasks[j]), category_of(tasks[k]));
    let (ni, nj, nk) = (tasks[i].name@, tasks[j].name@, tasks[k].name@);
    if lex_lt(ci, cj) && lex_lt(cj, ck) {
        lemma_lex_transitive(ci, cj, ck);
    }
    if ci == cj && cj == ck && lex_lt(ni, nj) && lex_lt(nj, nk) {
        lemma_lex_transitive(ni, nj, nk);
    }
}

proof fn lemma_before_total(tasks: Seq<TaskSummary>, i: int, j: int)
    requires
        i != j,
    ensures
        task_before(tasks, i, j) || task_before(tasks, j, i),
{
    let (ci, cj) = (category_of(tasks[i]), category_of(tasks[j]));
    if ci != cj {
        lemma_lex_total(ci, cj);
    } else if tasks[i].name@ != tasks[j].name@ {
        lemma_lex_total(tasks[i].name@, tasks[j].name@);
    }
}

/// A category of the task list with the positions of its tasks.
pub struct TaskGroup {
    pub category: String,
    pub tasks: Vec<usize>,
}

/// The task positions of the groups, one after the other.
pub open spec fn flatten(groups: Seq<TaskGroup>) -> Seq<usize>
    decreases groups.len(),
{
    if groups.len() == 0 {
        Seq::<usize>::empty()
    } else {
        flatten(groups.drop_last()) + groups.last().tasks@
    }
}

/// The groups are well formed: none is empty, each task is of its group's
/// category, and neighbouring groups are of different categories.
pub open spec fn groups_by_category(tasks: Seq<TaskSummary>, groups: Seq<TaskGroup>) -> bool {
    &&& forall|g: int| 0 <= g < groups.len() ==> (#[trigger] groups[g]).tasks@.len() > 0
    &&& forall|g: int, k: int|
        0 <= g < groups.len() && 0 <= k < groups[g].tasks@.len() ==> (#[trigger] groups[g].tasks@[k])
            < tasks.len() && category_of(tasks[groups[g].tasks@[k] as int]) == groups[g].category@
    &&& forall|g: int|
        0 <= g < groups.len() - 1 ==> (#[trigger] groups[g]).category@ != groups[g + 1].category@
}

fn category_text(t: &TaskSummary) -> (r: String)
    ensures
        r@ == category_of(*t),
{
    match &t.category {
        Some(c) => c.clone(),
        None => string_of(&chars_of("Other")),
    }
}

fn running_exec(t: &TaskSummary) -> (b: bool)
    ensures
        b == is_running(*t),
{
    match &t.state {
        Some(s) => str_eq(s.as_str(), "Running"),
        None => false,
    }
}

fn before_exec(
    tasks: &Vec<TaskSummary>,
    cats: &Vec<Vec<char>>,
    names: &Vec<Vec<char>>,
    i: usize,
    j: usize,
) -> (b: bool)
    requires
        i < tasks@.len(),
        j < tasks@.len(),
        cats@.len() == tasks@.len(),
        names@.len() == tasks@.len(),
        forall|k: int| 0 <= k < tasks@.len() ==> (#[trigger] cats@[k])@ == category_of(tasks@[k]),
        forall|k: int| 0 <= k < tasks@.len() ==> (#[trigger] names@[k])@ == tasks@[k].name@,
    ensures
        b == task_before(tasks@, i as int, j as int),
{
    let ci = &cats[i];
    let cj = &cats[j];
    if lex_lt_exec(ci, cj) {
        return true;
    }
    if lex_lt_exec(cj, ci) {
        proof {
            lemma_lex_asymmetric(cj@, ci@);
        }
        return false;
    }
    proof {
        if ci@ != cj@ {
            lemma_lex_total(ci@, cj@);
        }
    }
    let ni = &names[i];
    let nj = &names[j];
    if lex_lt_exec(ni, nj) {
        return true;
    }
    if lex_lt_exec(nj, ni) {
        proof {
            lemma_lex_asymmetric(nj@, ni@);
        }
        return false;
    }
    proof {
        if ni@ != nj@ {
            lemma_lex_total(ni@, nj@);
        }
    }
    i < j
}

/// Inserts `x` into the sorted positions `s` at its place.
fn insert_sorted(
    tasks: &Vec<TaskSummary>,
    cats: &Vec<Vec<char>>,
    names: &Vec<Vec<char>>,
    s: &mut Vec<usize>,
    x: usize,
)
    requires
        x < tasks@.len(),
        cats@.len() == tasks@.len(),
        names@.len() == tasks@.len(),
        forall|k: int| 0 <= k < tasks@.len() ==> (#[trigger] cats@[k])@ == category_of(tasks@[k]),
        forall|k: int| 0 <= k < tasks@.len() ==> (#[trigger] names@[k])@ == tasks@[k].name@,
        sorted_tasks(tasks@, old(s)@),
        !old(s)@.contains(x),
        forall|k: int| 0 <= k < old(s)@.len() ==> (#[trigger] old(s)@[k]) < tasks@.len(),
    ensures
        sorted_tasks(tasks@, final(s)@),
        forall|t: usize| #[trigger] final(s)@.contains(t) <==> (old(s)@.contains(t) || t == x),
        forall|k: int| 0 <= k < final(s)@.len() ==> (#[trigger] final(s)@[k]) < tasks@.len(),
{
    let mut p: usize = 0;
    while p < s.len() && !before_exec(tasks, cats, names, x, s[p])
        invariant
            p <= s@.len(),
            s@ == old(s)@,
            forall|m: int| 0 <= m < p ==> !task_before(tasks@, x as int, #[trigger] s@[m] as int),
            forall|k: int| 0 <= k < s@.len() ==> (#[trigger] s@[k]) < tasks@.len(),
            x < tasks@.len(),
            cats@.len() == tasks@.len(),
            names@.len() == tasks@.len(),
            forall|k: int| 0 <= k < tasks@.len() ==> (#[trigger] cats@[k])@ == category_of(tasks@[k]),
            forall|k: int| 0 <= k < tasks@.len() ==> (#[trigger] names@[k])@ == tasks@[k].name@,
        decreases s@.len() - p,
    {
        p = p + 1;
    }
    let ghost old_s = s@;
    proof {
        assert forall|m: int| 0 <= m < p implies task_before(tasks@, #[trigger] old_s[m] as int, x as int) by {
            assert(old_s[m] != x) by {
                assert(old_s.contains(old_s[m]));
            }
            lemma_before_total(tasks@, old_s[m] as int, x as int);
        }
        if p < old_s.len() {
            assert(task_before(tasks@, x as int, old_s[p as int] as int));
        }
    }
    s.insert(p, x);
    proof {
        let ns = s@;
        assert(ns =~= old_s.insert(p as int, x));
        assert forall|a: int, b: int| 0 <= a < b < ns.len() implies #[trigger] task_before(tasks@, ns[a] as int, ns[b] as int) by {
            if b < p {
                assert(ns[a] == old_s[a] && ns[b] == old_s[b]);
            } else if b == p {
                assert(ns[a] == old_s[a] && ns[b] == x);
            } else if a < p {
                assert(ns[a] == old_s[a] && ns[b] == old_s[b - 1]);
            } else if a == p {
                assert(ns[a] == x && ns[b] == old_s[b - 1]);
                if b - 1 > p {
                    assert(task_before(tasks@, old_s[p as int] as int, old_s[b - 1] as int));
                    lemma_before_transitive(tasks@, x as int, old_s[p as int] as int, old_s[b - 1] as int);
                }
            } else {
                assert(ns[a] == old_s[a - 1] && ns[b] == old_s[b - 1]);
            }
        }
        assert forall|t: usize| #[trigger] ns.contains(t) <==> (old_s.contains(t) || t == x) by {
            if ns.contains(t) {
                let w = choose|w: int| 0 <= w < ns.len() && ns[w] == t;
                if w < p {
                    assert(old_s[w] == t);
                } else if w > p {
                    assert(old_s[w - 1] == t);
                }
            }
            if old_s.contains(t) {
                let w = choose|w: int| 0 <= w < old_s.len() && old_s[w] == t;
                if w < p {
                    assert(ns[w] == t);
                } else {
                    assert(ns[w + 1] == t);
                }
            }
            if t == x {
                assert(ns[p as int] == x);
            }
        }
        assert forall|k: int| 0 <= k < ns.len() implies (#[trigger] ns[k]) < tasks@.len() by {
            if k < p {
                assert(ns[k] == old_s[k]);
            } else if k > p {
                assert(ns[k] == old_s[k - 1]);
            }
        }
    }
}

/// The listed tasks grouped by category: the groups' tasks, one group after
/// the other, are exactly the listed tasks in listing order (category, then
/// name, then server order), and each group is one whole category.
pub fn group_tasks(tasks: &Vec<TaskSummary>, running_only: bool) -> (r: Vec<TaskGroup>)
    ensures
        sorted_tasks(tasks@, flatten(r@)),
        forall|t: usize|
            #[trigger] flatten(r@).contains(t) <==> (t < tasks@.len() && is_listed(
                tasks@[t as int],
                running_only,
            )),
        groups_by_category(tasks@, r@),
{
    let mut cats: Vec<Vec<char>> = Vec::new();
    let mut names: Vec<Vec<char>> = Vec::new();
    let mut i: usize = 0;
    while i < tasks.len()
        invariant
            i <= tasks@.len(),
            cats@.len() == i,
            names@.len() == i,
            forall|k: int| 0 <= k < i ==> (#[trigger] cats@[k])@ == category_of(tasks@[k]),
            forall|k: int| 0 <= k < i ==> (#[trigger] names@[k])@ == tasks@[k].name@,
        decreases tasks@.len() - i,
    {
        let c = category_text(&tasks[i]);
        cats.push(chars_of(c.as_str()));
        names.push(chars_of(tasks[i].name.as_str()));
        i = i + 1;
    }
    let mut sorted: Vec<usize> = Vec::new();
    let mut i: usize = 0;
    while i < tasks.len()
        invariant
            i <= tasks@.len(),
            cats@.len() == tasks@.len(),
            names@.len() == tasks@.len(),
            forall|k: int| 0 <= k < tasks@.len() ==> (#[trigger] cats@[k])@ == category_of(tasks@[k]),
            forall|k: int| 0 <= k < tasks@.len() ==> (#[trigger] names@[k])@ == tasks@[k].name@,
            sorted_tasks(tasks@, sorted@),
            forall|t: usize|
                #[trigger] sorted@.contains(t) <==> (t < i && is_listed(tasks@[t as int], running_only)),
            forall|k: int| 0 <= k < sorted@.len() ==> (#[trigger] sorted@[k]) < tasks@.len(),
        decreases tasks@.len() - i,
    {
        if !running_only || running_exec(&tasks[i]) {
            insert_sorted(tasks, &cats, &names, &mut sorted, i);
        }
        i = i + 1;
    }
    let mut groups: Vec<TaskGroup> = Vec::new();
    let mut cur_tasks: Vec<usize> = Vec::new();
    let mut cur_cat: Vec<char> = Vec::new();
    let mut k: usize = 0;
    while k < sorted.len()
        invariant
            k <= sorted@.len(),
            cats@.len() == tasks@.len(),
            forall|m: int| 0 <= m < tasks@.len() ==> (#[trigger] cats@[m])@ == category_of(tasks@[m]),
            forall|m: int| 0 <= m < sorted@.len() ==> (#[trigger] sorted@[m]) < tasks@.len(),
            flatten(groups@) + cur_tasks@ == sorted@.take(k as int),
            groups_by_category(tasks@, groups@),
            k == 0 ==> cur_tasks@.len() == 0 && groups@.len() == 0,
            k > 0 ==> cur_tasks@.len() > 0,
            forall|m: int| 0 <= m < cur_tasks@.len() ==> (#[trigger] cur_tasks@[m]) < tasks@.len()
                && category_of(tasks@[cur_tasks@[m] as int]) == cur_cat@,
            groups@.len() > 0 ==> groups@.last().category@ != cur_cat@,
        decreases sorted@.len() - k,
    {
        let x = sorted[k];
        let ghost before_flat = flatten(groups@);
        let same = k > 0 && lex_eq(&cats[x], &cur_cat);
        if same {
            cur_tasks.push(x);
        } else {
            if k > 0 {
                let done = TaskGroup { category: string_of(&cur_cat), tasks: cur_tasks };
                let ghost gs = groups@;
                groups.push(done);
                proof {
                    assert(groups@.drop_last() =~= gs);
                    assert(flatten(groups@) == flatten(gs) + done.tasks@);
                    assert forall|g: int| 0 <= g < groups@.len() - 1 implies (#[trigger] groups@[g]).category@ != groups@[g + 1].category@ by {
                        if g < gs.len() - 1 {
                            assert(groups@[g] == gs[g] && groups@[g + 1] == gs[g + 1]);
                        } else {
                            assert(groups@[g] == gs[g]);
                        }
                    }
                    assert forall|g: int| 0 <= g < groups@.len() implies (#[trigger] groups@[g]).tasks@.len() > 0 by {
                        if g < gs.len() {
                            assert(groups@[g] == gs[g]);
                        }
                    }
                    assert forall|g: int, m: int|
                        0 <= g < groups@.len() && 0 <= m < groups@[g].tasks@.len() implies (#[trigger] groups@[g].tasks@[m])
                            < tasks@.len() && category_of(tasks@[groups@[g].tasks@[m] as int]) == groups@[g].category@ by {
                        if g < gs.len() {
                            assert(groups@[g] == gs[g]);
                        }
                    }
                }
            }
            cur_tasks = Vec::new();
            cur_tasks.push(x);
            cur_cat = cats[x].clone();
        }
        proof {
            assert(sorted@.take(k + 1) =~= sorted@.take(k as int).push(x));
            assert(flatten(groups@) + cur_tasks@ =~= sorted@.take(k + 1));
        }
        k = k + 1;
    }
    if k > 0 {
        let done = TaskGroup { category: string_of(&cur_cat), tasks: cur_tasks };
        let ghost gs = groups@;
        groups.push(done);
        proof {
            assert(groups@.drop_last() =~= gs);
            assert(flatten(groups@) == flatten(gs) + done.tasks@);
            assert forall|g: int| 0 <= g < groups@.len() - 1 implies (#[trigger] groups@[g]).category@ != groups@[g + 1].category@ by {
                if g < gs.len() - 1 {
                    assert(groups@[g] == gs[g] && groups@[g + 1] == gs[g + 1]);
                } else {
                    assert(groups@[g] == gs[g]);
                }
            }
            assert forall|g: int| 0 <= g < groups@.len() implies (#[trigger] groups@[g]).tasks@.len() > 0 by {
                if g < gs.len() {
                    assert(groups@[g] == gs[g]);
                }
            }
            assert forall|g: int, m: int|
                0 <= g < groups@.len() && 0 <= m < groups@[g].tasks@.len() implies (#[trigger] groups@[g].tasks@[m])
                    < tasks@.len() && category_of(tasks@[groups@[g].tasks@[m] as int]) == groups@[g].category@ by {
                if g < gs.len() {
                    assert(groups@[g] == gs[g]);
                }
            }
        }
    }
    proof {
        assert(sorted@.take(k as int) =~= sorted@);
        if k == 0 {
            assert(flatten(groups@) =~= sorted@);
        }
    }
    groups
}

proof fn lemma_flatten_prefix(gs: Seq<TaskGroup>, g: int)
    requires
        0 <= g <= gs.len(),
    ensures
        flatten(gs.take(g)).len() <= flatten(gs).len(),
        flatten(gs).take(flatten(gs.take(g)).len() as int) == flatten(gs.take(g)),
    decreases gs.len() - g,
{
    if g == gs.len() {
        assert(gs.take(g) =~= gs);
        assert(flatten(gs).take(flatten(gs).len() as int) =~= flatten(gs));
    } else {
        lemma_flatten_prefix(gs, g + 1);
        assert(gs.take(g + 1).drop_last() =~= gs.take(g));
        let a = flatten(gs.take(g));
        let b = flatten(gs.take(g + 1));
        assert(b == a + gs[g].tasks@);
        assert(flatten(gs).take(a.len() as int) =~= b.take(a.len() as int));
        assert(b.take(a.len() as int) =~= a);
    }
}

/// The first task of group `g` sits in the flattened list at the combined
/// length of the groups before it.
proof fn lemma_group_start(gs: Seq<TaskGroup>, g: int)
    requires
        0 <= g < gs.len(),
        gs[g].tasks@.len() > 0,
    ensures
        flatten(gs.take(g)).len() < flatten(gs).len(),
        flatten(gs)[flatten(gs.take(g)).len() as int] == gs[g].tasks@[0],
        flatten(gs.take(g + 1)).len() == flatten(gs.take(g)).len() + gs[g].tasks@.len(),
{
    lemma_flatten_prefix(gs, g + 1);
    assert(gs.take(g + 1).drop_last() =~= gs.take(g));
    let a = flatten(gs.take(g));
    let b = flatten(gs.take(g + 1));
    assert(b == a + gs[g].tasks@);
    assert(b[a.len() as int] == gs[g].tasks@[0]);
    assert(flatten(gs).take(b.len() as int)[a.len() as int] == b[a.len() as int]);
}

/// The groups of the task list come in alphabetical order of their
/// categories.
pub proof fn law_group_categories_ascending(tasks: Seq<TaskSummary>, gs: Seq<TaskGroup>)
    requires
        sorted_tasks(tasks, flatten(gs)),
        groups_by_category(tasks, gs),
    ensures
        forall|g1: int, g2: int|
            0 <= g1 < g2 < gs.len() ==> lex_lt(#[trigger] gs[g1].category@, #[trigger] gs[g2].category@),
{
    assert forall|g: int| 0 <= g < gs.len() - 1 implies lex_lt(#[trigger] gs[g].category@, gs[g + 1].category@) by {
        lemma_group_start(gs, g);
        lemma_group_start(gs, g + 1);
        let f = flatten(gs);
        let a = flatten(gs.take(g)).len() as int;
        let b = flatten(gs.take(g + 1)).len() as int;
        assert(a < b);
        assert(task_before(tasks, f[a] as int, f[b] as int));
        assert(category_of(tasks[gs[g].tasks@[0] as int]) == gs[g].category@);
        assert(category_of(tasks[gs[g + 1].tasks@[0] as int]) == gs[g + 1].category@);
        assert(gs[g].category@ != gs[g + 1].category@);
    }
    assert forall|g1: int, g2: int| 0 <= g1 < g2 < gs.len() implies lex_lt(#[trigger] gs[g1].category@, #[trigger] gs[g2].category@) by {
        lemma_chain(gs, g1, g2);
    }
}

proof fn lemma_chain(gs: Seq<TaskGroup>, g1: int, g2: int)
    requires
        0 <= g1 < g2 < gs.len(),
        forall|g: int| 0 <= g < gs.len() - 1 ==> lex_lt(#[trigger] gs[g].category@, gs[g + 1].category@),
    ensures
        lex_lt(gs[g1].category@, gs[g2].category@),
    decreases g2 - g1,
{
    if g2 > g1 + 1 {
        lemma_chain(gs, g1, g2 - 1);
        assert(lex_lt(gs[g2 - 1].category@, gs[g2].category@));
        lemma_lex_transitive(gs[g1].category@, gs[g2 - 1].category@, gs[g2].category@);
    }
}

fn lex_eq(a: &Vec<char>, b: &Vec<char>) -> (r: bool)
    ensures
        r == (a@ == b@),
{
    if a.len() != b.len() {
        return false;
    }
    let mut i: usize = 0;
    while i < a.len()
        invariant
            a@.len() == b@.len(),
            i <= a@.len(),
            forall|m: int| 0 <= m < i ==> a@[m] == b@[m],
        decreases a@.len() - i,
    {
        if a[i] != b[i] {
            return false;
        }
        i = i + 1;
    }
    assert(a@ =~= b@);
    true
}

/// The status badge of a task row: the running state while running, else
/// the last run's status (none when empty), with its style.
pub struct TaskBadge {
    pub text: String,
    pub class: &'static str,
    pub running: bool,
}

/// The badge of a task: the state defaults to `Idle`; a running task shows
/// `Running` with the running style; otherwise the last status shows, styled
/// as completed, failed or idle.
pub fn task_badge(state: Option<&str>, last_status: Option<&str>) -> (b: TaskBadge)
    ensures
        b.running == (state matches Some(s) && s@ == "Running"@),
        b.running ==> b.text@ == "Running"@ && b.class@ == "task-badge task-badge-running"@,
        !b.running ==> {
            let last = match last_status {
                Some(s) => s@,
                None => Seq::<char>::empty(),
            };
            &&& b.text@ == last
            &&& b.class@ == if last == "Completed"@ {
                "task-badge task-badge-completed"@
            } else if last == "Failed"@ {
                "task-badge task-badge-failed"@
            } else {
                "task-badge task-badge-idle"@
            }
        },
{
    let running = match state {
        Some(s) => str_eq(s, "Running"),
        None => false,
    };
    if running {
        return TaskBadge {
            text: string_of(&chars_of("Running")),
            class: "task-badge task-badge-running",
            running: true,
        };
    }
    let last = match last_status {
        Some(s) => s,
        None => {
            proof {
                reveal_strlit("");
            }
            assert(""@ == Seq::<char>::empty());
            ""
        },
    };
    assert(last@ == match last_status {
        Some(s) => s@,
        None => Seq::<char>::empty(),
    });
    let class = if str_eq(last, "Completed") {
        "task-badge task-badge-completed"
    } else if str_eq(last, "Failed") {
        "task-badge task-badge-failed"
    } else {
        "task-badge task-badge-idle"
    };
    TaskBadge { text: string_of(&chars_of(last)), class, running: false }
}

/// What an empty task list says.
pub fn empty_tasks_message(running_only: bool) -> (r: &'static str)
    ensures
        r@ == if running_only {
            "No tasks currently running"@
        } else {
            "No tasks found"@
        },
{
    if running_only {
        "No tasks currently running"
    } else {
        "No tasks found"
    }
}

} // verus!
