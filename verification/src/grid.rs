//! Dense per-pair-per-dimension weight store.
//!
//! The store is addressed by a vertex pair `(i, j)` and a dimension
//! `d < 7`; it is always square in the first two axes and exactly seven
//! in the third.  Growing the store reallocates it whole and copies every
//! prior entry at its original coordinates; there is no incremental growth.

use vstd::prelude::*;

verus! {

/// Number of stored dimensions per vertex pair.
pub const DIM: usize = 7;

/// Position of entry `(i, j, d)` in the flattened data.
pub open spec fn flat_index(size: int, i: int, j: int, d: int) -> int {
    (i * size + j) * 7 + d
}

/// Entry of a flattened store of the given size at coordinates `(i, j, d)`.
pub open spec fn entry_at<T>(data: Seq<T>, size: int, i: int, j: int, d: int) -> T {
    data[flat_index(size, i, j, d)]
}

proof fn lemma_flat_index_bounds(size: int, i: int, j: int, d: int)
    by (nonlinear_arith)
    requires
        0 <= i < size,
        0 <= j < size,
        0 <= d < 7,
    ensures
        0 <= flat_index(size, i, j, d) < size * size * 7,
        0 <= i * size <= flat_index(size, i, j, d),
        0 <= i * size * 7 <= flat_index(size, i, j, d),
{
}

proof fn lemma_flat_index_injective(
    size: int,
    i1: int,
    j1: int,
    d1: int,
    i2: int,
    j2: int,
    d2: int,
)
    requires
        0 <= i1 < size,
        0 <= j1 < size,
        0 <= d1 < 7,
        0 <= i2 < size,
        0 <= j2 < size,
        0 <= d2 < 7,
    ensures
        flat_index(size, i1, j1, d1) == flat_index(size, i2, j2, d2) ==> (i1 == i2 && j1
            == j2 && d1 == d2),
{
    if flat_index(size, i1, j1, d1) == flat_index(size, i2, j2, d2) {
        assert(i1 * size + j1 == i2 * size + j2 && d1 == d2) by (nonlinear_arith)
            requires
                0 <= d1 < 7,
                0 <= d2 < 7,
                (i1 * size + j1) * 7 + d1 == (i2 * size + j2) * 7 + d2,
        ;
        assert(i1 == i2 && j1 == j2) by (nonlinear_arith)
            requires
                0 <= j1 < size,
                0 <= j2 < size,
                i1 * size + j1 == i2 * size + j2,
        ;
    }
}

/// Dense square-by-seven weight store over entries of type `T`.
#[derive(Debug, Clone)]
pub struct Matrix7D<T> {
    /// Number of vertices along each of the first two axes.
    pub size: usize,
    /// Flattened entry data, `size * size * 7` long.
    pub data: Vec<T>,
}

impl<T: Copy> Matrix7D<T> {
    /// The store is square in its first two axes and exactly seven deep.
    pub open spec fn wf(self) -> bool {
        self.data@.len() == self.size * self.size * 7
    }

    /// Entry at coordinates `(i, j, d)`.
    pub open spec fn entry(self, i: int, j: int, d: int) -> T {
        entry_at(self.data@, self.size as int, i, j, d)
    }

    /// Create a store of the given size with every entry set to `fill`.
    pub fn new(size: usize, fill: T) -> (m: Matrix7D<T>)
        requires
            size * size * 7 <= usize::MAX,
        ensures
            m.wf(),
            m.size == size,
            forall|i: int, j: int, d: int|
                0 <= i < size && 0 <= j < size && 0 <= d < 7 ==> m.entry(i, j, d) == fill,
    {
        let total = size * size * 7;
        let mut data: Vec<T> = Vec::new();
        let mut n: usize = 0;
        while n < total
            invariant
                0 <= n <= total,
                data@.len() == n,
                forall|k: int| 0 <= k < n ==> data@[k] == fill,
            decreases total - n,
        {
            data.push(fill);
            n = n + 1;
        }
        let m = Matrix7D { size, data };
        proof {
            assert forall|i: int, j: int, d: int|
                0 <= i < size && 0 <= j < size && 0 <= d < 7 implies m.entry(i, j, d)
                == fill by {
                lemma_flat_index_bounds(size as int, i, j, d);
            }
        }
        m
    }

    /// Read the entry at `(i, j, d)`.
    pub fn get(&self, i: usize, j: usize, d: usize) -> (v: T)
        requires
            self.wf(),
            i < self.size,
            j < self.size,
            d < 7,
        ensures
            v == self.entry(i as int, j as int, d as int),
    {
        let total = self.data.len();
        proof {
            assert(total == self.size * self.size * 7);
            lemma_flat_index_bounds(self.size as int, i as int, j as int, d as int);
        }
        self.data[i * self.size * 7 + j * 7 + d]
    }

    /// Write the entry at `(i, j, d)`, leaving every other entry unchanged.
    pub fn set(&mut self, i: usize, j: usize, d: usize, value: T)
        requires
            old(self).wf(),
            i < old(self).size,
            j < old(self).size,
            d < 7,
        ensures
            final(self).wf(),
            final(self).size == old(self).size,
            final(self).entry(i as int, j as int, d as int) == value,
            forall|i2: int, j2: int, d2: int|
                0 <= i2 < old(self).size && 0 <= j2 < old(self).size && 0 <= d2 < 7 && !(i2
                    == i && j2 == j && d2 == d) ==> final(self).entry(i2, j2, d2) == old(
                    self,
                ).entry(i2, j2, d2),
    {
        let total = self.data.len();
        proof {
            assert(total == self.size * self.size * 7);
            lemma_flat_index_bounds(self.size as int, i as int, j as int, d as int);
        }
        let n = i * self.size * 7 + j * 7 + d;
        self.data.set(n, value);
        proof {
            assert forall|i2: int, j2: int, d2: int|
                0 <= i2 < old(self).size && 0 <= j2 < old(self).size && 0 <= d2 < 7 && !(i2
                    == i && j2 == j && d2 == d) implies final(self).entry(i2, j2, d2)
                == old(self).entry(i2, j2, d2) by {
                lemma_flat_index_bounds(old(self).size as int, i2, j2, d2);
                lemma_flat_index_injective(
                    old(self).size as int,
                    i2,
                    j2,
                    d2,
                    i as int,
                    j as int,
                    d as int,
                );
            }
        }
    }

    /// Reallocate the store to `new_size` vertices, copying every prior
    /// entry at its original coordinates and filling the rest with `fill`.
    pub fn grown(&self, new_size: usize, fill: T) -> (m: Matrix7D<T>)
        requires
            self.wf(),
            self.size <= new_size,
            new_size * new_size * 7 <= usize::MAX,
        ensures
            m.wf(),
            m.size == new_size,
            forall|i: int, j: int, d: int|
                0 <= i < self.size && 0 <= j < self.size && 0 <= d < 7 ==> m.entry(i, j, d)
                    == self.entry(i, j, d),
            forall|i: int, j: int, d: int|
                0 <= i < new_size && 0 <= j < new_size && 0 <= d < 7 && !(i < self.size && j
                    < self.size) ==> m.entry(i, j, d) == fill,
    {
        let mut m = Matrix7D::<T>::new(new_size, fill);
        let mut i: usize = 0;
        while i < self.size
            invariant
                self.wf(),
                m.wf(),
                0 <= i <= self.size,
                self.size <= new_size,
                m.size == new_size,
                forall|i2: int, j2: int, d2: int|
                    0 <= i2 < i && 0 <= j2 < self.size && 0 <= d2 < 7 ==> m.entry(i2, j2, d2)
                        == self.entry(i2, j2, d2),
                forall|i2: int, j2: int, d2: int|
                    0 <= i2 < new_size && 0 <= j2 < new_size && 0 <= d2 < 7 && !(i2 < i && j2
                        < self.size) ==> m.entry(i2, j2, d2) == fill,
            decreases self.size - i,
        {
            let mut j: usize = 0;
            while j < self.size
                invariant
                    self.wf(),
                    m.wf(),
                    0 <= i < self.size,
                    0 <= j <= self.size,
                    self.size <= new_size,
                    m.size == new_size,
                    forall|i2: int, j2: int, d2: int|
                        0 <= i2 < i && 0 <= j2 < self.size && 0 <= d2 < 7 ==> m.entry(
                            i2,
                            j2,
                            d2,
                        ) == self.entry(i2, j2, d2),
                    forall|j2: int, d2: int|
                        0 <= j2 < j && 0 <= d2 < 7 ==> m.entry(i as int, j2, d2)
                            == self.entry(i as int, j2, d2),
                    forall|i2: int, j2: int, d2: int|
                        0 <= i2 < new_size && 0 <= j2 < new_size && 0 <= d2 < 7 && !(i2 < i
                            && j2 < self.size) && !(i2 == i && j2 < j) ==> m.entry(
                            i2,
                            j2,
                            d2,
                        ) == fill,
                decreases self.size - j,
            {
                let mut d: usize = 0;
                while d < DIM
                    invariant
                        self.wf(),
                        m.wf(),
                        0 <= i < self.size,
                        0 <= j < self.size,
                        0 <= d <= 7,
                        self.size <= new_size,
                        m.size == new_size,
                        forall|i2: int, j2: int, d2: int|
                            0 <= i2 < i && 0 <= j2 < self.size && 0 <= d2 < 7 ==> m.entry(
                                i2,
                                j2,
                                d2,
                            ) == self.entry(i2, j2, d2),
                        forall|j2: int, d2: int|
                            0 <= j2 < j && 0 <= d2 < 7 ==> m.entry(i as int, j2, d2)
                                == self.entry(i as int, j2, d2),
                        forall|d2: int|
                            0 <= d2 < d ==> m.entry(i as int, j as int, d2) == self.entry(
                                i as int,
                                j as int,
                                d2,
                            ),
                        forall|i2: int, j2: int, d2: int|
                            0 <= i2 < new_size && 0 <= j2 < new_size && 0 <= d2 < 7 && !(i2
                                < i && j2 < self.size) && !(i2 == i && j2 < j) && !(i2 == i
                                && j2 == j && d2 < d) ==> m.entry(i2, j2, d2) == fill,
                    decreases 7 - d,
                {
                    let v = self.get(i, j, d);
                    m.set(i, j, d, v);
                    d = d + 1;
                }
                j = j + 1;
            }
            i = i + 1;
        }
        m
    }
}

} // verus!
