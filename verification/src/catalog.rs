//! The categories of the catalogue. A category is made the first time its
//! name is asked for, and found again under that name in any letter case.

use crate::models::CategoryRow;
use crate::models::CategoryView;
use crate::text::eq_ignore_ascii_case;
use crate::text::str_eq_ignore_ascii_case;
use vstd::prelude::*;

verus! {

/// The place of the first category whose name is `name` up to letter
/// case.
pub open spec fn name_index(rows: Seq<CategoryView>, name: Seq<char>) -> Option<int>
    decreases rows.len(),
{
    if rows.len() == 0 {
        None
    } else {
        match name_index(rows.drop_last(), name) {
            Some(i) => Some(i),
            None => if eq_ignore_ascii_case(rows.last().name, name) {
                Some(rows.len() - 1)
            } else {
                None
            },
        }
    }
}

/// `name_index` gives the first category of that name, and nothing only
/// where there is none.
pub proof fn lemma_name_index(rows: Seq<CategoryView>, name: Seq<char>)
    ensures
        match name_index(rows, name) {
            Some(i) => 0 <= i < rows.len() && eq_ignore_ascii_case(rows[i].name, name)
                && forall|k: int| 0 <= k < i ==> !eq_ignore_ascii_case(#[trigger] rows[k].name, name),
            None => forall|k: int|
                0 <= k < rows.len() ==> !eq_ignore_ascii_case(#[trigger] rows[k].name, name),
        },
    decreases rows.len(),
{
    if rows.len() > 0 {
        let earlier = rows.drop_last();
        lemma_name_index(earlier, name);
        match name_index(earlier, name) {
            Some(i) => {
                assert(earlier[i] == rows[i]);
                assert forall|k: int| 0 <= k < i implies !eq_ignore_ascii_case(
                    #[trigger] rows[k].name,
                    name,
                ) by {
                    assert(earlier[k] == rows[k]);
                }
            },
            None => {
                assert forall|k: int| 0 <= k < rows.len() - 1 implies !eq_ignore_ascii_case(
                    #[trigger] rows[k].name,
                    name,
                ) by {
                    assert(earlier[k] == rows[k]);
                }
            },
        }
    }
}

/// Equality up to letter case carries over from one text to an equal one.
pub proof fn lemma_same_name(a: Seq<char>, b: Seq<char>, c: Seq<char>)
    requires
        eq_ignore_ascii_case(a, b),
    ensures
        eq_ignore_ascii_case(b, a),
        eq_ignore_ascii_case(c, a) == eq_ignore_ascii_case(c, b),
{
    assert forall|i: int| 0 <= i < b.len() implies crate::text::ascii_fold(#[trigger] b[i])
        == crate::text::ascii_fold(a[i]) by {
        assert(crate::text::ascii_fold(a[i]) == crate::text::ascii_fold(b[i]));
    }
    if eq_ignore_ascii_case(c, a) {
        assert forall|i: int| 0 <= i < c.len() implies crate::text::ascii_fold(#[trigger] c[i])
            == crate::text::ascii_fold(b[i]) by {
            assert(crate::text::ascii_fold(a[i]) == crate::text::ascii_fold(b[i]));
        }
    }
    if eq_ignore_ascii_case(c, b) {
        assert forall|i: int| 0 <= i < c.len() implies crate::text::ascii_fold(#[trigger] c[i])
            == crate::text::ascii_fold(a[i]) by {
            assert(crate::text::ascii_fold(a[i]) == crate::text::ascii_fold(b[i]));
        }
    }
}

/// Categories are numbered from one in the order in which they were made,
/// and no two of them share a name up to letter case.
pub open spec fn categories_well_formed(rows: Seq<CategoryView>) -> bool {
    &&& forall|i: int| 0 <= i < rows.len() ==> (#[trigger] rows[i]).id == i + 1
    &&& forall|i: int, j: int|
        0 <= i < j < rows.len() ==> !eq_ignore_ascii_case(
            (#[trigger] rows[i]).name,
            (#[trigger] rows[j]).name,
        )
}

/// The category that a name is given, and whether it existed: the first
/// category of that name up to letter case, or a new one under the next
/// number.
pub open spec fn ensured(rows: Seq<CategoryView>, name: Seq<char>) -> (CategoryView, bool) {
    match name_index(rows, name) {
        Some(i) => (rows[i], true),
        None => (CategoryView { id: (rows.len() + 1) as i64, name }, false),
    }
}

/// The categories after a name was asked for.
pub open spec fn after_ensure(rows: Seq<CategoryView>, name: Seq<char>) -> Seq<CategoryView> {
    if ensured(rows, name).1 {
        rows
    } else {
        rows.push(ensured(rows, name).0)
    }
}

/// Asking for a name keeps the categories well-formed.
pub proof fn law_ensure_keeps_names_unique(rows: Seq<CategoryView>, name: Seq<char>)
    requires
        categories_well_formed(rows),
        rows.len() < i64::MAX,
    ensures
        categories_well_formed(after_ensure(rows, name)),
{
    lemma_name_index(rows, name);
    let after = after_ensure(rows, name);
    if !ensured(rows, name).1 {
        assert forall|i: int, j: int| 0 <= i < j < after.len() implies !eq_ignore_ascii_case(
            (#[trigger] after[i]).name,
            (#[trigger] after[j]).name,
        ) by {
            assert(after[i] == rows[i]);
            if j < rows.len() {
                assert(after[j] == rows[j]);
            } else {
                assert(!eq_ignore_ascii_case(rows[i].name, name));
            }
        }
        assert forall|i: int| 0 <= i < after.len() implies (#[trigger] after[i]).id == i + 1 by {
            if i < rows.len() {
                assert(after[i] == rows[i]);
            }
        }
    }
}

/// Asking for a name twice, the second time in another letter case, gives
/// the same category both times; the second time it is flagged as
/// existing, and nothing is added.
pub proof fn law_ensure_ignores_letter_case(rows: Seq<CategoryView>, first: Seq<char>, second: Seq<char>)
    requires
        categories_well_formed(rows),
        rows.len() < i64::MAX,
        eq_ignore_ascii_case(first, second),
    ensures
        ensured(after_ensure(rows, first), second) == (ensured(rows, first).0, true),
        after_ensure(after_ensure(rows, first), second) == after_ensure(rows, first),
{
    let middle = after_ensure(rows, first);
    lemma_name_index(rows, first);
    lemma_name_index(middle, second);
    assert forall|k: int| 0 <= k < middle.len() implies eq_ignore_ascii_case(
        (#[trigger] middle[k]).name,
        first,
    ) == eq_ignore_ascii_case(middle[k].name, second) by {
        lemma_same_name(first, second, middle[k].name);
    }
    match name_index(rows, first) {
        Some(i) => {
            assert(eq_ignore_ascii_case(middle[i].name, first));
            let j = name_index(middle, second)->0;
            if j < i {
                assert(!eq_ignore_ascii_case(rows[j].name, first));
            }
            if i < j {
                assert(!eq_ignore_ascii_case(middle[i].name, second));
            }
        },
        None => {
            let n = rows.len() as int;
            assert(middle[n].name == first);
            assert(eq_ignore_ascii_case(first, first));
            assert(eq_ignore_ascii_case(middle[n].name, first));
            let j = name_index(middle, second)->0;
            if j < n {
                assert(middle[j] == rows[j]);
                assert(!eq_ignore_ascii_case(rows[j].name, first));
            }
        },
    }
}

/// The categories of the catalogue, held in memory.
pub struct Categories {
    rows: Vec<CategoryRow>,
}

impl View for Categories {
    type V = Seq<CategoryView>;

    closed spec fn view(&self) -> Seq<CategoryView> {
        self.rows.deep_view()
    }
}

impl Categories {
    /// No category yet.
    pub fn new() -> (r: Categories)
        ensures
            r@ == Seq::<CategoryView>::empty(),
            categories_well_formed(r@),
    {
        let r = Categories { rows: Vec::new() };
        assert(r@ =~= Seq::<CategoryView>::empty());
        r
    }

    /// The number of categories.
    pub fn len(&self) -> (n: usize)
        ensures
            n == self@.len(),
    {
        self.rows.len()
    }

    /// The first category of the given name, whatever the letter case.
    pub fn find_category_by_name(&self, name: &str) -> (r: Option<CategoryRow>)
        ensures
            r.deep_view() == match name_index(self@, name@) {
                Some(i) => Some(self@[i]),
                None => None,
            },
    {
        match self.position(name) {
            Some(i) => Some(
                CategoryRow { id: self.rows[i].id, name: self.rows[i].name.clone() },
            ),
            None => None,
        }
    }

    fn position(&self, name: &str) -> (r: Option<usize>)
        ensures
            match r {
                Some(i) => name_index(self@, name@) == Some(i as int) && i < self.rows@.len(),
                None => name_index(self@, name@) is None,
            },
    {
        let ghost all = self@;
        let mut i: usize = 0;
        while i < self.rows.len()
            invariant
                i <= self.rows@.len(),
                all == self.rows.deep_view(),
                name_index(all.subrange(0, i as int), name@) is None,
            decreases self.rows@.len() - i,
        {
            proof {
                let longer = all.subrange(0, i as int + 1);
                assert(longer.drop_last() == all.subrange(0, i as int));
                assert(longer.last() == self.rows@[i as int]@);
            }
            if str_eq_ignore_ascii_case(self.rows[i].name.as_str(), name) {
                proof {
                    lemma_name_index_stays(all, name@, i as int + 1);
                }
                return Some(i);
            }
            i = i + 1;
        }
        assert(all.subrange(0, i as int) == all);
        None
    }

    /// Gives the category of the given name, making it where there is none
    /// of that name in any letter case; tells whether it existed.
    pub fn ensure_category(&mut self, name: &str) -> (r: (CategoryRow, bool))
        requires
            categories_well_formed(old(self)@),
            old(self)@.len() < i64::MAX,
        ensures
            (r.0@, r.1) == ensured(old(self)@, name@),
            final(self)@ == after_ensure(old(self)@, name@),
            categories_well_formed(final(self)@),
    {
        proof {
            law_ensure_keeps_names_unique(self@, name@);
        }
        match self.position(name) {
            Some(i) => (
                CategoryRow { id: self.rows[i].id, name: self.rows[i].name.clone() },
                true,
            ),
            None => {
                assert(self.rows@.len() == self@.len());
                let id = self.rows.len() as i64 + 1;
                let ghost before = self.rows.deep_view();
                self.rows.push(CategoryRow { id, name: name.to_owned() });
                assert(self.rows.deep_view() =~= before.push(CategoryView { id, name: name@ }));
                (CategoryRow { id, name: name.to_owned() }, false)
            },
        }
    }
}

/// A category found among the first `k` is the one found among all.
proof fn lemma_name_index_stays(rows: Seq<CategoryView>, name: Seq<char>, k: int)
    requires
        0 <= k <= rows.len(),
        name_index(rows.subrange(0, k), name) is Some,
    ensures
        name_index(rows, name) == name_index(rows.subrange(0, k), name),
    decreases rows.len() - k,
{
    if k == rows.len() {
        assert(rows.subrange(0, k) == rows);
    } else {
        let longer = rows.subrange(0, k + 1);
        assert(longer.drop_last() == rows.subrange(0, k));
        lemma_name_index_stays(rows, name, k + 1);
    }
}

} // verus!
