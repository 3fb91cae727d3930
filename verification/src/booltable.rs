use vstd::prelude::*;

verus! {

/// A table of sixteen boolean flags packed into one `u16`; flag `i` is bit `i`.
#[derive(Clone, Copy, Debug, PartialEq, Eq)]
pub struct BoolTable16 {
    pub data: u16,
}

/// Whether flag `idx` is set in the packed word `data` (never, outside `0..16`).
pub open spec fn flag_at(data: u16, idx: int) -> bool {
    0 <= idx < 16 && (data >> (idx as u16)) & 1 == 1
}

/// The word `data` with bit `idx` forced to `v`.
pub open spec fn with_flag(data: u16, idx: u16, v: bool) -> u16 {
    if v {
        data | (1u16 << idx)
    } else {
        data & !(1u16 << idx)
    }
}

proof fn lemma_with_flag(data: u16, idx: u16, v: bool, j: u16)
    requires
        idx < 16,
        j < 16,
    ensures
        flag_at(with_flag(data, idx, v), j as int) == if j == idx {
            v
        } else {
            flag_at(data, j as int)
        },
{
    if v {
        assert(((data | (1u16 << idx)) >> j) & 1 == if j == idx {
            1u16
        } else {
            (data >> j) & 1
        }) by (bit_vector)
            requires
                idx < 16,
                j < 16,
        ;
    } else {
        assert(((data & !(1u16 << idx)) >> j) & 1 == if j == idx {
            0u16
        } else {
            (data >> j) & 1
        }) by (bit_vector)
            requires
                idx < 16,
                j < 16,
        ;
    }
}

/// Flag `i` of `with_flag(data, idx, v)` is `v` at `idx` and unchanged elsewhere.
pub proof fn lemma_with_flag_all(data: u16, idx: u16, v: bool)
    requires
        idx < 16,
    ensures
        forall|j: int|
            #[trigger] flag_at(with_flag(data, idx, v), j) == if j == idx as int {
                v
            } else {
                flag_at(data, j)
            },
{
    assert forall|j: int|
        #[trigger] flag_at(with_flag(data, idx, v), j) == if j == idx as int {
            v
        } else {
            flag_at(data, j)
        } by {
        if 0 <= j < 16 {
            lemma_with_flag(data, idx, v, j as u16);
        }
    }
}

proof fn lemma_zero_has_no_flag()
    ensures
        forall|i: int| !#[trigger] flag_at(0u16, i),
{
    assert forall|i: int| !#[trigger] flag_at(0u16, i) by {
        if 0 <= i < 16 {
            let s = i as u16;
            assert((0u16 >> s) & 1 == 0) by (bit_vector);
        }
    }
}

impl BoolTable16 {
    /// The flag at `idx` in this table (false outside `0..16`).
    pub open spec fn has(self, idx: int) -> bool {
        flag_at(self.data, idx)
    }

    /// A table with every flag cleared.
    pub fn new() -> (t: Self)
        ensures
            t.data == 0,
            forall|i: int| !#[trigger] t.has(i),
    {
        proof {
            lemma_zero_has_no_flag();
        }
        BoolTable16 { data: 0 }
    }

    /// Sets flag `idx` to `v`; an index outside `0..16` leaves the table unchanged.
    pub fn set(&mut self, idx: u8, v: bool)
        ensures
            idx < 16 ==> final(self).data == with_flag(old(self).data, idx as u16, v),
            idx >= 16 ==> *final(self) == *old(self),
            forall|j: int|
                #[trigger] final(self).has(j) == if j == idx as int && idx < 16 {
                    v
                } else {
                    old(self).has(j)
                },
    {
        if idx < 16 {
            proof {
                lemma_with_flag_all(self.data, idx as u16, v);
            }
            let bit: u16 = 1u16 << (idx as u16);
            if v {
                self.data = self.data | bit;
            } else {
                self.data = self.data & !bit;
            }
        }
    }

    /// Builder form of [`BoolTable16::set`].
    pub fn setc(self, idx: u8, v: bool) -> (t: Self)
        ensures
            idx < 16 ==> t.data == with_flag(self.data, idx as u16, v),
            idx >= 16 ==> t == self,
            forall|j: int|
                #[trigger] t.has(j) == if j == idx as int && idx < 16 {
                    v
                } else {
                    self.has(j)
                },
    {
        let mut t = self;
        t.set(idx, v);
        t
    }

    /// The flag at `idx`, or `None` when `idx` is not below 16.
    pub fn get(&self, idx: u8) -> (r: Option<bool>)
        ensures
            r == if idx < 16 {
                Some(self.has(idx as int))
            } else {
                None::<bool>
            },
    {
        if idx < 16 {
            Some((self.data >> (idx as u16)) & 1 == 1)
        } else {
            None
        }
    }

    /// The flag at `idx`, false when `idx` is not below 16.
    pub fn at(&self, idx: u8) -> (r: bool)
        ensures
            r == self.has(idx as int),
    {
        idx < 16 && (self.data >> (idx as u16)) & 1 == 1
    }
}

} // verus!
