//! The scoreboard: a mapping from team names to integer scores, kept as a
//! sequence of rows with pairwise-distinct keys. Loading it from disk and
//! writing it back are done outside the library, which only receives and
//! hands out the rows as plain values.

use vstd::prelude::*;
use vstd::assert_maps_equal;
use vstd::map::*;

verus! {

/// No two rows carry the same team name.
pub open spec fn unique_keys(rows: Seq<(String, i32)>) -> bool {
    forall|i: int, j: int| 0 <= i < j < rows.len() ==> rows[i].0@ != rows[j].0@
}

/// Whether some row carries the team name `k`.
pub open spec fn contains_key(rows: Seq<(String, i32)>, k: Seq<char>) -> bool {
    exists|i: int| 0 <= i < rows.len() && rows[i].0@ == k
}

/// The index of the row carrying the team name `k`, where one exists.
pub open spec fn index_of_key(rows: Seq<(String, i32)>, k: Seq<char>) -> int {
    choose|i: int| 0 <= i < rows.len() && rows[i].0@ == k
}

/// The mapping the rows spell out: each team name to its score.
pub open spec fn map_of(rows: Seq<(String, i32)>) -> Map<Seq<char>, i32> {
    Map::new(
        |k: Seq<char>| contains_key(rows, k),
        |k: Seq<char>| rows[index_of_key(rows, k)].1,
    )
}

/// With pairwise-distinct keys, row `i` is the one and only row of its key,
/// and the mapping sends that key to its score.
pub proof fn lemma_row_determines_key(rows: Seq<(String, i32)>, i: int)
    requires
        unique_keys(rows),
        0 <= i < rows.len(),
    ensures
        contains_key(rows, rows[i].0@),
        index_of_key(rows, rows[i].0@) == i,
        map_of(rows)[rows[i].0@] == rows[i].1,
{
    let k = rows[i].0@;
    assert(contains_key(rows, k));
    let j = index_of_key(rows, k);
    assert(0 <= j < rows.len() && rows[j].0@ == k);
}

/// The scoreboard: team names and their scores, one row per team.
pub struct Table {
    data: Vec<(String, i32)>,
}

impl View for Table {
    type V = Map<Seq<char>, i32>;

    closed spec fn view(&self) -> Map<Seq<char>, i32> {
        map_of(self.data@)
    }
}

impl Table {
    /// The rows as stored, in insertion order.
    pub closed spec fn rows(&self) -> Seq<(String, i32)> {
        self.data@
    }

    /// The table invariant: one row per team name.
    pub open spec fn wf(&self) -> bool {
        unique_keys(self.rows())
    }

    /// An empty scoreboard.
    pub fn new() -> (r: Table)
        ensures
            r.wf(),
            r@ == Map::<Seq<char>, i32>::empty(),
            r.rows() == Seq::<(String, i32)>::empty(),
    {
        let t = Table { data: Vec::new() };
        proof {
            assert(t@ =~= Map::<Seq<char>, i32>::empty());
        }
        t
    }

    /// The number of rows.
    pub fn num_rows(&self) -> (n: usize)
        ensures
            n == self.rows().len(),
    {
        self.data.len()
    }

    /// The row at a given position, for printing and persisting.
    pub fn row_at(&self, i: usize) -> (r: &(String, i32))
        requires
            i < self.rows().len(),
        ensures
            *r == self.rows()[i as int],
    {
        &self.data[i]
    }

    /// The position of the row carrying `team`, if any.
    fn find_index(&self, team: &String) -> (r: Option<usize>)
        requires
            self.wf(),
        ensures
            match r {
                Some(i) => i < self.rows().len() && self.rows()[i as int].0@ == team@
                    && index_of_key(self.rows(), team@) == i,
                None => !contains_key(self.rows(), team@),
            },
    {
        let n = self.data.len();
        let mut i: usize = 0;
        while i < n
            invariant
                self.wf(),
                n == self.rows().len(),
                i <= n,
                forall|j: int| 0 <= j < i ==> self.rows()[j].0@ != team@,
            decreases n - i,
        {
            if self.data[i].0 == *team {
                proof {
                    assert(contains_key(self.rows(), team@));
                    let j = index_of_key(self.rows(), team@);
                    assert(0 <= j < self.rows().len() && self.rows()[j].0@ == team@);
                    assert(j >= i);
                    assert(j <= i) by {
                        if j > i {
                            assert(self.rows()[i as int].0@ != self.rows()[j].0@ || !unique_keys(
                                self.rows(),
                            ));
                        }
                    }
                }
                return Some(i);
            }
            i = i + 1;
        }
        None
    }

    /// The score recorded for `team`, if any.
    pub fn get(&self, team: &String) -> (r: Option<i32>)
        requires
            self.wf(),
        ensures
            r is Some <==> self@.contains_key(team@),
            r is Some ==> r->0 == self@[team@],
    {
        match self.find_index(team) {
            Some(i) => Some(self.data[i].1),
            None => None,
        }
    }

    /// Records `score` for `team`: a team already on the board has its
    /// score replaced, a new team gets a fresh row.
    pub fn append(&mut self, team: String, score: i32)
        requires
            old(self).wf(),
        ensures
            final(self).wf(),
            final(self)@ == old(self)@.insert(team@, score),
    {
        let ghost old_rows = self.data@;
        match self.find_index(&team) {
            Some(i) => {
                self.data[i] = (team, score);
                proof {
                    lemma_insert_at_existing(old_rows, self.data@, i as int);
                }
            },
            None => {
                self.data.push((team, score));
                proof {
                    lemma_insert_at_end(old_rows, self.data@);
                }
            },
        }
    }

    /// Replaces the score of a team already on the board; an unknown team
    /// leaves the board unchanged, and the result says which it was.
    pub fn update(&mut self, team: String, score: i32) -> (found: bool)
        requires
            old(self).wf(),
        ensures
            final(self).wf(),
            found <==> old(self)@.contains_key(team@),
            found ==> final(self)@ == old(self)@.insert(team@, score),
            !found ==> *final(self) == *old(self),
    {
        let ghost old_rows = self.data@;
        match self.find_index(&team) {
            Some(i) => {
                self.data[i] = (team, score);
                proof {
                    lemma_insert_at_existing(old_rows, self.data@, i as int);
                }
                true
            },
            None => false,
        }
    }

    /// Takes a team off the board; an unknown team leaves the board
    /// unchanged, and the result says which it was.
    pub fn delete(&mut self, team: String) -> (found: bool)
        requires
            old(self).wf(),
        ensures
            final(self).wf(),
            found <==> old(self)@.contains_key(team@),
            final(self)@ == old(self)@.remove(team@),
            !found ==> *final(self) == *old(self),
    {
        let ghost old_rows = self.data@;
        match self.find_index(&team) {
            Some(i) => {
                self.data.remove(i);
                proof {
                    lemma_remove_row(old_rows, self.data@, i as int);
                }
                true
            },
            None => {
                proof {
                    assert(self@ =~= self@.remove(team@));
                }
                false
            },
        }
    }

    /// Clears the board.
    pub fn delete_all(&mut self)
        ensures
            final(self).wf(),
            final(self)@ == Map::<Seq<char>, i32>::empty(),
    {
        self.data.clear();
        proof {
            assert(self@ =~= Map::<Seq<char>, i32>::empty());
        }
    }
}

/// Replacing the one row of a key rewrites the mapping at that key alone.
proof fn lemma_insert_at_existing(rows: Seq<(String, i32)>, new_rows: Seq<(String, i32)>, i: int)
    requires
        unique_keys(rows),
        0 <= i < rows.len(),
        new_rows == rows.update(i, (new_rows[i].0, new_rows[i].1)),
        new_rows[i].0@ == rows[i].0@,
    ensures
        unique_keys(new_rows),
        map_of(new_rows) == map_of(rows).insert(rows[i].0@, new_rows[i].1),
{
    let k = rows[i].0@;
    assert(new_rows.len() == rows.len());
    assert forall|a: int| 0 <= a < new_rows.len() implies new_rows[a].0@ == rows[a].0@ by {
        if a != i {
            assert(new_rows[a] == rows[a]);
        }
    }
    assert(unique_keys(new_rows));
    assert forall|q: Seq<char>| contains_key(new_rows, q) == contains_key(rows, q) by {
        if contains_key(new_rows, q) {
            let a = choose|a: int| 0 <= a < new_rows.len() && new_rows[a].0@ == q;
            assert(rows[a].0@ == q);
        }
        if contains_key(rows, q) {
            let a = choose|a: int| 0 <= a < rows.len() && rows[a].0@ == q;
            assert(new_rows[a].0@ == q);
        }
    }
    assert_maps_equal!(map_of(new_rows), map_of(rows).insert(k, new_rows[i].1), q => {
        if contains_key(new_rows, q) {
            let a = index_of_key(new_rows, q);
            assert(0 <= a < new_rows.len() && new_rows[a].0@ == q);
            lemma_row_determines_key(new_rows, a);
            if q == k {
                assert(a == i) by {
                    if a != i {
                        assert(new_rows[a].0@ != new_rows[i].0@);
                    }
                }
            } else {
                assert(a != i);
                assert(rows[a] == new_rows[a]);
                lemma_row_determines_key(rows, a);
            }
        }
    });
}

/// Adding a row with a fresh key extends the mapping by that key alone.
proof fn lemma_insert_at_end(rows: Seq<(String, i32)>, new_rows: Seq<(String, i32)>)
    requires
        unique_keys(rows),
        new_rows == rows.push((new_rows.last().0, new_rows.last().1)),
        !contains_key(rows, new_rows.last().0@),
    ensures
        unique_keys(new_rows),
        map_of(new_rows) == map_of(rows).insert(new_rows.last().0@, new_rows.last().1),
{
    let n = rows.len() as int;
    let k = new_rows.last().0@;
    assert(new_rows.len() == n + 1);
    assert forall|a: int| 0 <= a < n implies new_rows[a] == rows[a] by {}
    assert forall|a: int, b: int| 0 <= a < b < new_rows.len() implies new_rows[a].0@
        != new_rows[b].0@ by {
        if b == n {
            assert(new_rows[a] == rows[a]);
            if new_rows[a].0@ == k {
                assert(contains_key(rows, k));
            }
        }
    }
    assert_maps_equal!(map_of(new_rows), map_of(rows).insert(k, new_rows.last().1), q => {
        if contains_key(new_rows, q) {
            let a = index_of_key(new_rows, q);
            assert(0 <= a < new_rows.len() && new_rows[a].0@ == q);
            lemma_row_determines_key(new_rows, a);
            if a < n {
                assert(rows[a] == new_rows[a]);
                lemma_row_determines_key(rows, a);
                assert(q != k);
            } else {
                assert(q == k);
            }
        } else {
            if contains_key(rows, q) {
                let a = choose|a: int| 0 <= a < rows.len() && rows[a].0@ == q;
                assert(new_rows[a].0@ == q);
            }
            assert(q != k);
        }
    });
}

/// Taking out the one row of a key narrows the mapping by that key alone.
proof fn lemma_remove_row(rows: Seq<(String, i32)>, new_rows: Seq<(String, i32)>, i: int)
    requires
        unique_keys(rows),
        0 <= i < rows.len(),
        new_rows == rows.remove(i),
    ensures
        unique_keys(new_rows),
        map_of(new_rows) == map_of(rows).remove(rows[i].0@),
{
    let n = rows.len() as int;
    let k = rows[i].0@;
    assert(new_rows.len() == n - 1);
    assert forall|a: int| 0 <= a < n - 1 implies new_rows[a] == (if a < i {
        rows[a]
    } else {
        rows[a + 1]
    }) by {}
    assert forall|a: int, b: int| 0 <= a < b < new_rows.len() implies new_rows[a].0@
        != new_rows[b].0@ by {
        let a0 = if a < i { a } else { a + 1 };
        let b0 = if b < i { b } else { b + 1 };
        assert(new_rows[a] == rows[a0] && new_rows[b] == rows[b0]);
        assert(0 <= a0 < b0 < n);
    }
    assert_maps_equal!(map_of(new_rows), map_of(rows).remove(k), q => {
        if contains_key(new_rows, q) {
            let a = index_of_key(new_rows, q);
            assert(0 <= a < new_rows.len() && new_rows[a].0@ == q);
            lemma_row_determines_key(new_rows, a);
            let a0 = if a < i { a } else { a + 1 };
            assert(new_rows[a] == rows[a0]);
            lemma_row_determines_key(rows, a0);
            assert(q != k) by {
                if a0 != i {
                    assert(rows[a0].0@ != rows[i].0@ || !unique_keys(rows));
                }
            }
        } else {
            if contains_key(rows, q) && q != k {
                let a0 = choose|a0: int| 0 <= a0 < rows.len() && rows[a0].0@ == q;
                assert(a0 != i);
                let a = if a0 < i { a0 } else { a0 - 1 };
                assert(new_rows[a] == rows[a0]);
                assert(contains_key(new_rows, q));
            }
        }
    });
}

} // verus!
