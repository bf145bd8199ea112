//! The list of migrations as the `list` command shows it: ordered by
//! version, each with a mark that says whether it is applied.

use crate::text::{lemma_lex_lt_total, lemma_lex_lt_transitive, lex_lt, precedes};
use vstd::prelude::*;
use vstd::string::*;

verus! {

/// The mathematical value of a migration with its mark.
pub struct MarkedMigrationView {
    pub version: Seq<char>,
    pub name: Seq<char>,
    pub applied: bool,
}

/// A migration of the directory, and whether the database has it applied.
#[derive(Debug, PartialEq, Eq)]
pub struct MarkedMigration {
    /// The version, by which migrations are ordered: as text, not as a
    /// number.
    pub version: String,
    /// The name of the migration's directory.
    pub name: String,
    pub applied: bool,
}

impl View for MarkedMigration {
    type V = MarkedMigrationView;

    open spec fn view(&self) -> MarkedMigrationView {
        MarkedMigrationView { version: self.version@, name: self.name@, applied: self.applied }
    }
}

impl Clone for MarkedMigration {
    fn clone(&self) -> (r: Self)
        ensures
            r@ == self@,
    {
        MarkedMigration {
            version: self.version.clone(),
            name: self.name.clone(),
            applied: self.applied,
        }
    }
}

/// The values of a list of migrations.
pub open spec fn marked_views(v: Seq<MarkedMigration>) -> Seq<MarkedMigrationView> {
    Seq::new(v.len(), |i: int| v[i]@)
}

/// No migration stands behind one of a later version.
pub open spec fn ordered_by_version(s: Seq<MarkedMigrationView>) -> bool {
    forall|i: int, j: int| 0 <= i < j < s.len() ==> !lex_lt(s[j].version, s[i].version)
}

/// The test for the version `v`.
pub open spec fn has_version(v: Seq<char>) -> spec_fn(MarkedMigrationView) -> bool {
    |m: MarkedMigrationView| m.version == v
}

/// `sorted` holds the migrations of `given` ordered by version, those of
/// one version in the order that `given` has them in.
pub open spec fn is_version_sort(
    sorted: Seq<MarkedMigrationView>,
    given: Seq<MarkedMigrationView>,
) -> bool {
    &&& ordered_by_version(sorted)
    &&& sorted.len() == given.len()
    &&& forall|v: Seq<char>| #[trigger]
        sorted.filter(has_version(v)) == given.filter(has_version(v))
}

proof fn lemma_filter_push<A>(s: Seq<A>, x: A, f: spec_fn(A) -> bool)
    ensures
        s.push(x).filter(f) == if f(x) {
            s.filter(f).push(x)
        } else {
            s.filter(f)
        },
{
    reveal(Seq::filter);
    assert(s.push(x).drop_last() =~= s);
}

proof fn lemma_filter_none<A>(s: Seq<A>, f: spec_fn(A) -> bool)
    requires
        forall|i: int| 0 <= i < s.len() ==> !f(#[trigger] s[i]),
    ensures
        s.filter(f) == Seq::<A>::empty(),
    decreases s.len(),
{
    reveal(Seq::filter);
    if s.len() > 0 {
        lemma_filter_none(s.drop_last(), f);
    }
}

proof fn lemma_filter_insert<A>(s: Seq<A>, p: int, x: A, f: spec_fn(A) -> bool)
    requires
        0 <= p <= s.len(),
    ensures
        s.insert(p, x).filter(f) == s.subrange(0, p).push(x).filter(f) + s.subrange(
            p,
            s.len() as int,
        ).filter(f),
        s.filter(f) == s.subrange(0, p).filter(f) + s.subrange(p, s.len() as int).filter(f),
{
    let a = s.subrange(0, p);
    let b = s.subrange(p, s.len() as int);
    Seq::filter_distributes_over_add(a.push(x), b, f);
    Seq::filter_distributes_over_add(a, b, f);
    assert(a + b =~= s);
}

/// Inserting a migration behind all that do not come after it keeps the
/// order, and keeps the migrations of each version in the order of arrival.
proof fn lemma_insert_keeps_sort(
    sorted: Seq<MarkedMigrationView>,
    given: Seq<MarkedMigrationView>,
    p: int,
    x: MarkedMigrationView,
)
    requires
        is_version_sort(sorted, given),
        0 <= p <= sorted.len(),
        forall|k: int| 0 <= k < p ==> !lex_lt(x.version, #[trigger] sorted[k].version),
        p < sorted.len() ==> lex_lt(x.version, sorted[p].version),
    ensures
        is_version_sort(sorted.insert(p, x), given.push(x)),
{
    let out = sorted.insert(p, x);
    assert(out.len() == sorted.len() + 1);
    assert forall|j: int| p <= j < sorted.len() implies lex_lt(
        x.version,
        #[trigger] sorted[j].version,
    ) by {
        if j > p {
            lemma_lex_lt_total(sorted[j].version, sorted[p].version);
            if sorted[j].version != sorted[p].version {
                lemma_lex_lt_transitive(x.version, sorted[p].version, sorted[j].version);
            }
        }
    }
    assert forall|i: int, j: int| 0 <= i < j < out.len() implies !lex_lt(
        out[j].version,
        out[i].version,
    ) by {
        if i == p {
            assert(out[j] == sorted[j - 1]);
            lemma_lex_lt_total(x.version, sorted[j - 1].version);
        } else if j == p {
            assert(out[i] == sorted[i]);
        } else {
            let a = if i < p {
                i
            } else {
                i - 1
            };
            let b = if j < p {
                j
            } else {
                j - 1
            };
            assert(out[i] == sorted[a]);
            assert(out[j] == sorted[b]);
        }
    }
    assert forall|v: Seq<char>| #[trigger]
        out.filter(has_version(v)) == given.push(x).filter(has_version(v)) by {
        let f = has_version(v);
        let a = sorted.subrange(0, p);
        let b = sorted.subrange(p, sorted.len() as int);
        lemma_filter_insert(sorted, p, x, f);
        lemma_filter_push(a, x, f);
        lemma_filter_push(given, x, f);
        assert(sorted.filter(f) == given.filter(f));
        if f(x) {
            assert forall|i: int| 0 <= i < b.len() implies !f(#[trigger] b[i]) by {
                assert(b[i] == sorted[p + i]);
                lemma_lex_lt_total(x.version, sorted[p + i].version);
            }
            lemma_filter_none(b, f);
            assert(a.filter(f).push(x) + Seq::<MarkedMigrationView>::empty() =~= (a.filter(f)
                + Seq::<MarkedMigrationView>::empty()).push(x));
        }
    }
}

/// Where a migration of the version `v` goes into an ordered list: in front
/// of the first migration whose version comes after `v`, and at the end
/// where there is none.
pub open spec fn insert_point(sorted: Seq<MarkedMigrationView>, v: Seq<char>) -> int
    decreases sorted.len(),
{
    if sorted.len() == 0 || lex_lt(v, sorted[0].version) {
        0
    } else {
        1 + insert_point(sorted.drop_first(), v)
    }
}

/// The migrations ordered by version, those of one version in the order
/// given: each migration in turn goes behind all that do not come after it.
pub open spec fn sorted_by_version(given: Seq<MarkedMigrationView>) -> Seq<MarkedMigrationView>
    decreases given.len(),
{
    if given.len() == 0 {
        given
    } else {
        let sorted = sorted_by_version(given.drop_last());
        sorted.insert(insert_point(sorted, given.last().version), given.last())
    }
}

proof fn lemma_insert_point(sorted: Seq<MarkedMigrationView>, v: Seq<char>, p: int)
    requires
        0 <= p <= sorted.len(),
        forall|k: int| 0 <= k < p ==> !lex_lt(v, #[trigger] sorted[k].version),
        p < sorted.len() ==> lex_lt(v, sorted[p].version),
    ensures
        insert_point(sorted, v) == p,
    decreases sorted.len(),
{
    if p > 0 {
        assert(!lex_lt(v, sorted[0].version));
        let rest = sorted.drop_first();
        assert forall|k: int| 0 <= k < p - 1 implies !lex_lt(v, #[trigger] rest[k].version) by {
            assert(rest[k] == sorted[k + 1]);
        }
        lemma_insert_point(rest, v, p - 1);
    }
}

proof fn lemma_insert_point_found(sorted: Seq<MarkedMigrationView>, v: Seq<char>)
    ensures
        0 <= insert_point(sorted, v) <= sorted.len(),
        forall|k: int|
            0 <= k < insert_point(sorted, v) ==> !lex_lt(v, #[trigger] sorted[k].version),
        insert_point(sorted, v) < sorted.len() ==> lex_lt(
            v,
            sorted[insert_point(sorted, v)].version,
        ),
    decreases sorted.len(),
{
    if !(sorted.len() == 0 || lex_lt(v, sorted[0].version)) {
        let rest = sorted.drop_first();
        lemma_insert_point_found(rest, v);
        let p = insert_point(rest, v);
        assert forall|k: int| 0 <= k < p + 1 implies !lex_lt(v, #[trigger] sorted[k].version) by {
            if k > 0 {
                assert(sorted[k] == rest[k - 1]);
            }
        }
        if p < rest.len() {
            assert(rest[p] == sorted[p + 1]);
        }
    }
}

/// The ordered list is ordered, holds what was given, and keeps the
/// migrations of one version in the order given.
pub proof fn lemma_sorted_by_version(given: Seq<MarkedMigrationView>)
    ensures
        is_version_sort(sorted_by_version(given), given),
    decreases given.len(),
{
    if given.len() == 0 {
    } else {
        let front = given.drop_last();
        let sorted = sorted_by_version(front);
        lemma_sorted_by_version(front);
        lemma_insert_point_found(sorted, given.last().version);
        lemma_insert_keeps_sort(
            sorted,
            front,
            insert_point(sorted, given.last().version),
            given.last(),
        );
        assert(front.push(given.last()) =~= given);
    }
}

proof fn lemma_version_occurs(s: Seq<MarkedMigrationView>, v: Seq<char>) -> (k: int)
    requires
        s.filter(has_version(v)).len() > 0,
    ensures
        0 <= k < s.len(),
        s[k].version == v,
{
    let kept = s.filter(has_version(v));
    let e = kept[0];
    s.lemma_filter_pred(has_version(v), 0);
    assert(kept.contains(e));
    s.lemma_filter_contains_rev(has_version(v), e);
    let k = choose|k: int| 0 <= k < s.len() && s[k] == e;
    k
}

proof fn lemma_last_version_is_greatest(s: Seq<MarkedMigrationView>, k: int)
    requires
        ordered_by_version(s),
        0 <= k < s.len(),
    ensures
        !lex_lt(s.last().version, s[k].version),
{
    if k == s.len() - 1 {
        lemma_lex_lt_total(s[k].version, s[k].version);
    }
}

/// Only one list is the version sort of a given one: being ordered, holding
/// what was given and keeping the order within each version say where each
/// migration stands.
pub proof fn lemma_version_sort_is_unique(
    a: Seq<MarkedMigrationView>,
    b: Seq<MarkedMigrationView>,
    given: Seq<MarkedMigrationView>,
)
    requires
        is_version_sort(a, given),
        is_version_sort(b, given),
    ensures
        a == b,
    decreases a.len(),
{
    if a.len() == 0 {
        assert(a =~= b);
    } else {
        let x = a.last();
        let y = b.last();
        let v = x.version;
        let w = y.version;
        let a1 = a.drop_last();
        let b1 = b.drop_last();
        assert(a1.push(x) =~= a);
        assert(b1.push(y) =~= b);
        lemma_filter_push(a1, x, has_version(v));
        lemma_filter_push(b1, y, has_version(w));
        assert(a.filter(has_version(v)) == given.filter(has_version(v)));
        assert(b.filter(has_version(v)) == given.filter(has_version(v)));
        assert(a.filter(has_version(w)) == given.filter(has_version(w)));
        assert(b.filter(has_version(w)) == given.filter(has_version(w)));
        let kb = lemma_version_occurs(b, v);
        lemma_last_version_is_greatest(b, kb);
        let ka = lemma_version_occurs(a, w);
        lemma_last_version_is_greatest(a, ka);
        lemma_lex_lt_total(v, w);
        assert(v == w);
        assert(x == a.filter(has_version(v)).last());
        assert(y == b.filter(has_version(v)).last());
        assert(x == y);
        assert forall|u: Seq<char>| #[trigger]
            a1.filter(has_version(u)) == b1.filter(has_version(u)) by {
            lemma_filter_push(a1, x, has_version(u));
            lemma_filter_push(b1, y, has_version(u));
            assert(a.filter(has_version(u)) == given.filter(has_version(u)));
            assert(b.filter(has_version(u)) == given.filter(has_version(u)));
            if u == v {
                assert(a1.filter(has_version(u)) =~= a.filter(has_version(u)).drop_last());
                assert(b1.filter(has_version(u)) =~= b.filter(has_version(u)).drop_last());
            }
        }
        assert forall|i: int, j: int| 0 <= i < j < a1.len() implies !lex_lt(
            a1[j].version,
            a1[i].version,
        ) by {
            assert(a1[i] == a[i] && a1[j] == a[j]);
        }
        assert forall|i: int, j: int| 0 <= i < j < b1.len() implies !lex_lt(
            b1[j].version,
            b1[i].version,
        ) by {
            assert(b1[i] == b[i] && b1[j] == b[j]);
        }
        lemma_version_sort_is_unique(a1, b1, a1);
    }
}

/// Orders migrations by version. Versions are compared as texts; migrations
/// of one version stay in the order they came in.
pub fn sort_by_version(migrations: &Vec<MarkedMigration>) -> (r: Vec<MarkedMigration>)
    ensures
        marked_views(r@) == sorted_by_version(marked_views(migrations@)),
        is_version_sort(marked_views(r@), marked_views(migrations@)),
{
    let ghost given = marked_views(migrations@);
    let mut out: Vec<MarkedMigration> = Vec::new();
    let mut i: usize = 0;
    proof {
        assert(given.take(0) =~= Seq::<MarkedMigrationView>::empty());
        assert(marked_views(out@) =~= Seq::<MarkedMigrationView>::empty());
    }
    while i < migrations.len()
        invariant
            i <= migrations.len(),
            given == marked_views(migrations@),
            marked_views(out@) == sorted_by_version(given.take(i as int)),
        decreases migrations.len() - i,
    {
        let x: MarkedMigration = migrations[i].clone();
        let ghost sorted = marked_views(out@);
        let mut p: usize = 0;
        while p < out.len() && !precedes(x.version.as_str(), out[p].version.as_str())
            invariant
                p <= out.len(),
                sorted == marked_views(out@),
                forall|k: int| 0 <= k < p ==> !lex_lt(x@.version, #[trigger] sorted[k].version),
            decreases out.len() - p,
        {
            p = p + 1;
        }
        proof {
            lemma_insert_point(sorted, x@.version, p as int);
            assert(given.take(i + 1).drop_last() =~= given.take(i as int));
            assert(given.take(i + 1).last() == x@);
            assert(marked_views(out@.insert(p as int, x)) =~= sorted.insert(p as int, x@));
        }
        out.insert(p, x);
        i = i + 1;
    }
    proof {
        assert(given.take(migrations.len() as int) =~= given);
        lemma_sorted_by_version(given);
    }
    out
}

/// The line of the list for one migration: its mark, then its name.
pub open spec fn listing_line(m: MarkedMigrationView) -> Seq<char> {
    (if m.applied {
        "  [X] "@
    } else {
        "  [ ] "@
    }) + m.name
}

/// The list: its heading, then one line for each migration.
pub open spec fn listing_spec(s: Seq<MarkedMigrationView>) -> Seq<Seq<char>> {
    seq!["Migrations:"@] + Seq::new(s.len(), |i: int| listing_line(s[i]))
}

/// The values of a list of lines.
pub open spec fn lines_view(v: Seq<String>) -> Seq<Seq<char>> {
    Seq::new(v.len(), |i: int| v[i]@)
}

/// The lines that show `migrations`, in the order given.
pub fn migration_listing(migrations: &Vec<MarkedMigration>) -> (r: Vec<String>)
    ensures
        lines_view(r@) == listing_spec(marked_views(migrations@)),
{
    let ghost given = marked_views(migrations@);
    let mut out: Vec<String> = Vec::new();
    out.push(String::from_str("Migrations:"));
    let mut i: usize = 0;
    while i < migrations.len()
        invariant
            i <= migrations.len(),
            given == marked_views(migrations@),
            out@.len() == i + 1,
            out@[0]@ == "Migrations:"@,
            forall|k: int| 0 <= k < i ==> (#[trigger] out@[k + 1])@ == listing_line(given[k]),
        decreases migrations.len() - i,
    {
        let mut line: String = if migrations[i].applied {
            String::from_str("  [X] ")
        } else {
            String::from_str("  [ ] ")
        };
        line.append(migrations[i].name.as_str());
        assert(line@ == listing_line(given[i as int]));
        out.push(line);
        i = i + 1;
    }
    proof {
        let want = listing_spec(given);
        let body = Seq::new(given.len(), |i: int| listing_line(given[i]));
        assert(want.len() == out@.len());
        assert forall|j: int| 0 <= j < out@.len() implies lines_view(out@)[j] == want[j] by {
            if j > 0 {
                assert(out@[(j - 1) + 1]@ == listing_line(given[j - 1]));
                assert(want[j] == body[j - 1]);
            }
        }
        assert(lines_view(out@) =~= want);
    }
    out
}

/// The lines of the `list` command: the migrations ordered by version, each
/// with its mark.
pub fn list_migrations(migrations: &Vec<MarkedMigration>) -> (r: Vec<String>)
    ensures
        lines_view(r@) == listing_spec(sorted_by_version(marked_views(migrations@))),
{
    let sorted: Vec<MarkedMigration> = sort_by_version(migrations);
    migration_listing(&sorted)
}

/// What the `pending` command prints.
pub fn pending_report(any_pending: bool) -> (r: &'static str)
    ensures
        r@ == if any_pending {
            "true"@
        } else {
            "false"@
        },
{
    if any_pending {
        "true"
    } else {
        "false"
    }
}

} // verus!
