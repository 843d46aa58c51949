//! The code buffer: an ordered collection of optional single-grapheme cell
//! values, the profile they are validated against, and a wrapping change
//! counter used only as a change-detection token.

use crate::profile::char_ok;
use crate::profile::code_valid;
use crate::profile::DigitCodeProfile;
use crate::text::concat_seqs;
use crate::text::join_strings;
use crate::text::seq_views;
use std::sync::Arc;
use vstd::prelude::*;
use vstd::pervasive::VecAdditionalExecFns;

verus! {

/// The update indicator wraps to 0 instead of reaching this bound.
pub const INDICATOR_BOUND: i64 = i64::MAX - 10;

/// The view of one optional cell value.
pub open spec fn opt_view(o: Option<String>) -> Option<Seq<char>> {
    match o {
        Some(s) => Some(s@),
        None => None,
    }
}

/// The views of a vector of optional cell values.
pub open spec fn cells_view(v: Seq<Option<String>>) -> Seq<Option<Seq<char>>> {
    v.map_values(|o: Option<String>| opt_view(o))
}

/// The present (non-empty) cell values, in index order.
pub open spec fn present_of(cells: Seq<Option<Seq<char>>>) -> Seq<Seq<char>>
    decreases cells.len(),
{
    if cells.len() == 0 {
        Seq::empty()
    } else {
        match cells.first() {
            Some(v) => seq![v] + present_of(cells.drop_first()),
            None => present_of(cells.drop_first()),
        }
    }
}

/// The successor of the update indicator: one more, wrapping to 0 at the
/// bound.
pub open spec fn next_indicator(v: int) -> int {
    (v + 1) % (INDICATOR_BOUND as int)
}

/// Relies on `Arc::clone` of std: the new handle shares the allocation of
/// the old one, so it carries the same value.
#[verifier::external_body]
fn arc_clone<T>(a: &Arc<T>) -> (r: Arc<T>)
    ensures
        r == *a,
{
    Arc::clone(a)
}

/// The buffer of one code-entry session.
#[derive(Debug, Clone, PartialEq, Eq)]
pub struct DigitCode<PROFILE: DigitCodeProfile> {
    code: Vec<Option<String>>,
    profile: Arc<PROFILE>,
    update_indicator: i64,
}

impl<PROFILE: DigitCodeProfile> DigitCode<PROFILE> {
    /// The cell contents, each stored value by its characters.
    pub closed spec fn cells(&self) -> Seq<Option<Seq<char>>> {
        cells_view(self.code@)
    }

    /// The profile the buffer validates against.
    pub closed spec fn spec_profile(&self) -> PROFILE {
        *self.profile
    }

    /// The current change-detection token.
    pub closed spec fn spec_update_indicator(&self) -> int {
        self.update_indicator as int
    }

    /// Well-formedness: as many cells as the profile's length, every stored
    /// value acceptable to the profile, and the update indicator inside its
    /// wrapping range.
    pub open spec fn wf(&self) -> bool {
        &&& self.cells().len() == self.spec_profile().spec_len()
        &&& (forall|i: int|
            0 <= i < self.cells().len() ==> (#[trigger] self.cells()[i] matches Some(v)
                ==> char_ok(&self.spec_profile(), v)))
        &&& 0 <= self.spec_update_indicator() < INDICATOR_BOUND as int
    }

    /// A buffer for the given profile with every cell empty.
    pub fn new(profile: Arc<PROFILE>) -> (r: Self)
        ensures
            r.wf(),
            r.spec_profile() == *profile,
            r.cells().len() == profile.spec_len(),
            forall|i: int| 0 <= i < r.cells().len() ==> r.cells()[i] is None,
            r.spec_update_indicator() == 0,
    {
        let n = profile.len();
        let mut code: Vec<Option<String>> = Vec::new();
        while code.len() < n
            invariant
                code@.len() <= n,
                forall|i: int| 0 <= i < code@.len() ==> code@[i] is None,
            decreases n - code@.len(),
        {
            code.push(None);
        }
        DigitCode { code, profile, update_indicator: 0 }
    }

    /// Stores `value` at `index`. An out-of-bounds index, or a non-empty
    /// value the profile refuses, is rejected: nothing is stored and `None`
    /// comes back. On success the value is stored, the version counter is
    /// bumped, and `Some(())` comes back.
    pub fn set(&mut self, index: usize, value: Option<String>) -> (r: Option<()>)
        requires
            old(self).wf(),
        ensures
            final(self).wf(),
            final(self).spec_profile() == old(self).spec_profile(),
            r is Some <==> (index < old(self).cells().len() && (value matches Some(v)
                ==> char_ok(&old(self).spec_profile(), v@))),
            r is Some ==> final(self).cells() =~= old(self).cells().update(
                index as int,
                opt_view(value),
            ) && final(self).spec_update_indicator() == next_indicator(
                old(self).spec_update_indicator(),
            ),
            r is None ==> *final(self) == *old(self),
    {
        if index < self.code.len() {
            let valid = match &value {
                Some(v) => self.profile.is_valid_char(v.as_str()),
                None => true,
            };
            if !valid {
                return None;
            }
            self.code.set(index, value);
            proof {
                assert(self.cells() =~= old(self).cells().update(index as int, opt_view(value)));
            }
            self.change_update_indicator();
            Some(())
        } else {
            None
        }
    }

    /// A shared handle to the profile.
    pub fn profile(&self) -> (r: Arc<PROFILE>)
        ensures
            *r == self.spec_profile(),
    {
        arc_clone(&self.profile)
    }

    /// The number of cells, as declared by the profile.
    pub fn len(&self) -> (r: usize)
        requires
            self.wf(),
        ensures
            r as nat == self.spec_profile().spec_len(),
            r as nat == self.cells().len(),
    {
        self.profile.len()
    }

    /// The value at `index`; `None` for an out-of-bounds index rather than
    /// a failure.
    pub fn get(&self, index: usize) -> (r: Option<String>)
        ensures
            index < self.cells().len() ==> opt_view(r) == self.cells()[index as int],
            index >= self.cells().len() ==> r is None,
    {
        if index < self.code.len() {
            match &self.code[index] {
                Some(s) => Some(s.clone()),
                None => None,
            }
        } else {
            None
        }
    }

    /// Sets all cells to `None`; still counts as a mutation for the version
    /// counter.
    pub fn clear(&mut self)
        requires
            old(self).wf(),
        ensures
            final(self).wf(),
            final(self).spec_profile() == old(self).spec_profile(),
            final(self).cells().len() == old(self).cells().len(),
            forall|i: int| 0 <= i < final(self).cells().len() ==> final(self).cells()[i] is None,
            final(self).spec_update_indicator() == next_indicator(
                old(self).spec_update_indicator(),
            ),
    {
        let n = self.code.len();
        let mut fresh: Vec<Option<String>> = Vec::new();
        while fresh.len() < n
            invariant
                fresh@.len() <= n,
                forall|i: int| 0 <= i < fresh@.len() ==> fresh@[i] is None,
            decreases n - fresh@.len(),
        {
            fresh.push(None);
        }
        self.code = fresh;
        self.change_update_indicator();
    }

    /// A copy of this buffer with every cell blank; the copy's version
    /// counter is bumped as by `clear`.
    pub fn as_empty(&self) -> (r: Self)
        requires
            self.wf(),
        ensures
            r.wf(),
            r.spec_profile() == self.spec_profile(),
            r.cells().len() == self.cells().len(),
            forall|i: int| 0 <= i < r.cells().len() ==> r.cells()[i] is None,
            r.spec_update_indicator() == next_indicator(self.spec_update_indicator()),
    {
        let mut val = self.duplicate();
        val.clear();
        val
    }

    /// A copy of this buffer with `set(index, value)` applied.
    pub fn with_set(&self, index: usize, value: Option<String>) -> (r: Self)
        requires
            self.wf(),
        ensures
            r.wf(),
            r.spec_profile() == self.spec_profile(),
            (index < self.cells().len() && (value matches Some(v) ==> char_ok(
                &self.spec_profile(),
                v@,
            ))) ==> r.cells() =~= self.cells().update(index as int, opt_view(value))
                && r.spec_update_indicator() == next_indicator(self.spec_update_indicator()),
            !(index < self.cells().len() && (value matches Some(v) ==> char_ok(
                &self.spec_profile(),
                v@,
            ))) ==> r.cells() == self.cells() && r.spec_update_indicator()
                == self.spec_update_indicator(),
    {
        let mut val = self.duplicate();
        let _ = val.set(index, value);
        val
    }

    /// The cells as a fresh vector, in index order.
    pub fn iter(&self) -> (r: Vec<Option<String>>)
        ensures
            cells_view(r@) == self.cells(),
    {
        clone_cells(&self.code)
    }

    /// The present cell values as a fresh vector, in index order.
    pub fn iter_some(&self) -> (r: Vec<String>)
        ensures
            seq_views(r@) == present_of(self.cells()),
    {
        let n = self.code.len();
        let mut out: Vec<String> = Vec::new();
        let mut i: usize = 0;
        while i < n
            invariant
                i <= n,
                n == self.code@.len(),
                seq_views(out@) == present_of(self.cells().take(i as int)),
            decreases n - i,
        {
            proof {
                lemma_present_of_snoc(self.cells().take(i as int), self.cells()[i as int]);
                assert(self.cells().take(i as int + 1) =~= self.cells().take(i as int).push(
                    self.cells()[i as int],
                ));
            }
            match &self.code[i] {
                Some(s) => {
                    out.push(s.clone());
                    proof {
                        assert(seq_views(out@) =~= present_of(self.cells().take(i as int + 1)));
                    }
                },
                None => {
                    proof {
                        assert(seq_views(out@) =~= present_of(self.cells().take(i as int + 1)));
                    }
                },
            }
            i += 1;
        }
        proof {
            assert(self.cells().take(n as int) =~= self.cells());
        }
        out
    }

    /// Whether the buffer holds a complete, profile-valid code. The check
    /// runs over the present cells only, so a buffer with any empty cell can
    /// never be valid: the present count falls short of the length the
    /// profile demands.
    pub fn is_valid(&self) -> (r: bool)
        requires
            self.wf(),
        ensures
            r == code_valid(&self.spec_profile(), present_of(self.cells())),
    {
        let v = self.iter_some();
        let r = self.profile.is_char_code_valid(&v);
        proof {
            assert(forall|i: int| 0 <= i < v@.len() ==> seq_views(v@)[i] == #[trigger] v@[i]@);
        }
        r
    }

    /// The concatenation of all cell values in index order, but only if the
    /// buffer is valid; otherwise no value. This is the sole path by which
    /// a completed code is produced.
    pub fn joined(&self) -> (r: Option<String>)
        requires
            self.wf(),
        ensures
            r is Some <==> code_valid(&self.spec_profile(), present_of(self.cells())),
            r matches Some(s) ==> s@ == concat_seqs(present_of(self.cells())),
    {
        if self.is_valid() {
            let v = self.iter_some();
            Some(join_strings(&v))
        } else {
            None
        }
    }

    /// Advances the change-detection counter, wrapping before overflow.
    pub fn change_update_indicator(&mut self)
        requires
            old(self).wf(),
        ensures
            final(self).wf(),
            final(self).cells() == old(self).cells(),
            final(self).spec_profile() == old(self).spec_profile(),
            final(self).spec_update_indicator() == next_indicator(
                old(self).spec_update_indicator(),
            ),
    {
        self.update_indicator = (self.update_indicator + 1) % (i64::MAX - 10);
    }

    /// An equal, independently owned buffer.
    fn duplicate(&self) -> (r: Self)
        ensures
            r.cells() == self.cells(),
            r.spec_profile() == self.spec_profile(),
            r.spec_update_indicator() == self.spec_update_indicator(),
    {
        let code = clone_cells(&self.code);
        let profile = arc_clone(&self.profile);
        let r = DigitCode { code, profile, update_indicator: self.update_indicator };
        proof {
            assert(r.cells() =~= self.cells());
        }
        r
    }
}

/// An element-wise copy of a vector of optional strings, equal to its
/// source.
fn clone_cells(v: &Vec<Option<String>>) -> (r: Vec<Option<String>>)
    ensures
        r@ =~= v@,
{
    let n = v.len();
    let mut out: Vec<Option<String>> = Vec::new();
    let mut i: usize = 0;
    while i < n
        invariant
            i <= n,
            n == v@.len(),
            out@.len() == i,
            forall|j: int| 0 <= j < i ==> out@[j] == v@[j],
        decreases n - i,
    {
        match &v[i] {
            Some(s) => out.push(Some(s.clone())),
            None => out.push(None),
        }
        i += 1;
    }
    out
}

/// Appending one cell to the back extends the present values by that cell's
/// value, if any.
proof fn lemma_present_of_snoc(cells: Seq<Option<Seq<char>>>, last: Option<Seq<char>>)
    ensures
        present_of(cells.push(last)) == match last {
            Some(v) => present_of(cells) + seq![v],
            None => present_of(cells),
        },
    decreases cells.len(),
{
    let whole = cells.push(last);
    assert(present_of(Seq::<Option<Seq<char>>>::empty()) == Seq::<Seq<char>>::empty());
    if cells.len() == 0 {
        assert(whole.drop_first() =~= Seq::<Option<Seq<char>>>::empty());
        assert(whole.first() == last);
        match last {
            Some(v) => {
                assert(present_of(whole) =~= present_of(cells) + seq![v]);
            },
            None => {
                assert(present_of(whole) =~= present_of(cells));
            },
        }
    } else {
        lemma_present_of_snoc(cells.drop_first(), last);
        assert(whole.drop_first() =~= cells.drop_first().push(last));
        assert(whole.first() == cells.first());
        match cells.first() {
            Some(v) => {
                match last {
                    Some(w) => {
                        assert(present_of(whole) =~= present_of(cells) + seq![w]);
                    },
                    None => {
                        assert(present_of(whole) =~= present_of(cells));
                    },
                }
            },
            None => {
                match last {
                    Some(w) => {
                        assert(present_of(whole) =~= present_of(cells) + seq![w]);
                    },
                    None => {
                        assert(present_of(whole) =~= present_of(cells));
                    },
                }
            },
        }
    }
}

/// Never more present values than cells.
proof fn lemma_present_len_le(cells: Seq<Option<Seq<char>>>)
    ensures
        present_of(cells).len() <= cells.len(),
    decreases cells.len(),
{
    if cells.len() == 0 {
    } else {
        lemma_present_len_le(cells.drop_first());
    }
}

/// With an empty cell at `i`, strictly fewer present values than cells.
proof fn lemma_present_shorter(cells: Seq<Option<Seq<char>>>, i: int)
    requires
        0 <= i < cells.len(),
        cells[i] is None,
    ensures
        present_of(cells).len() < cells.len(),
    decreases cells.len(),
{
    if i == 0 {
        lemma_present_len_le(cells.drop_first());
    } else {
        lemma_present_shorter(cells.drop_first(), i - 1);
    }
}

/// When every cell holds a value, the present values are exactly those
/// values, in index order.
proof fn lemma_present_all_some(cells: Seq<Option<Seq<char>>>, vals: Seq<Seq<char>>)
    requires
        vals.len() == cells.len(),
        forall|i: int| 0 <= i < cells.len() ==> cells[i] == Some(vals[i]),
    ensures
        present_of(cells) == vals,
    decreases cells.len(),
{
    if cells.len() == 0 {
        assert(present_of(cells) =~= vals);
    } else {
        assert(forall|i: int|
            0 <= i < cells.drop_first().len() ==> #[trigger] cells.drop_first()[i] == Some(
                vals.drop_first()[i],
            ));
        lemma_present_all_some(cells.drop_first(), vals.drop_first());
        assert(cells.first() == Some(vals.first()));
        assert(present_of(cells) =~= seq![vals.first()] + vals.drop_first());
        assert(seq![vals.first()] + vals.drop_first() =~= vals);
    }
}

/// Law: a buffer with at least one empty cell never holds a valid code, so
/// by `joined`'s contract it joins to no value: the present values fall
/// short of the length the profile demands.
pub proof fn lemma_empty_cell_invalid<P: DigitCodeProfile>(dc: &DigitCode<P>, i: int)
    requires
        dc.wf(),
        0 <= i < dc.cells().len(),
        dc.cells()[i] is None,
    ensures
        !code_valid(&dc.spec_profile(), present_of(dc.cells())),
{
    lemma_present_shorter(dc.cells(), i);
}

/// Law: when every cell of a well-formed buffer holds a profile-valid value
/// and there are as many values as the profile demands, the buffer holds a
/// valid code whose present values are exactly those values in index order,
/// so by `joined`'s contract it joins to their concatenation.
pub proof fn lemma_filled_buffer_valid<P: DigitCodeProfile>(
    dc: &DigitCode<P>,
    vals: Seq<Seq<char>>,
)
    requires
        dc.wf(),
        vals.len() == dc.cells().len(),
        forall|i: int| 0 <= i < vals.len() ==> char_ok(&dc.spec_profile(), #[trigger] vals[i]),
        forall|i: int| 0 <= i < vals.len() ==> dc.cells()[i] == Some(vals[i]),
    ensures
        code_valid(&dc.spec_profile(), present_of(dc.cells())),
        present_of(dc.cells()) == vals,
{
    lemma_present_all_some(dc.cells(), vals);
}

} // verus!
