//! Read-only views over zero-terminated wide-character strings. A view owns
//! its units; its content is everything before the first zero unit, and two
//! views are equal when their contents are, regardless of what follows the
//! terminator.

use vstd::prelude::*;
use vstd::string::StrSliceExecFns;

use crate::defs::E_INVALIDARG;
use crate::defs::HResult;

verus! {

/// Whether the sequence holds a zero unit anywhere.
pub open spec fn has_nul(s: Seq<u16>) -> bool {
    exists|i: int| 0 <= i < s.len() && s[i] == 0
}

/// The index of the first zero unit, or the length when there is none.
pub open spec fn nul_index(s: Seq<u16>) -> int
    decreases s.len(),
{
    if s.len() == 0 {
        0
    } else if s[0] == 0 {
        0
    } else {
        1 + nul_index(s.drop_first())
    }
}

/// The units before the first zero unit.
pub open spec fn content(s: Seq<u16>) -> Seq<u16> {
    s.subrange(0, nul_index(s))
}

/// Position and bounds of the first zero unit.
pub proof fn lemma_nul_index(s: Seq<u16>)
    ensures
        0 <= nul_index(s) <= s.len(),
        has_nul(s) ==> nul_index(s) < s.len() && s[nul_index(s)] == 0,
        forall|j: int| 0 <= j < nul_index(s) ==> s[j] != 0,
    decreases s.len(),
{
    if s.len() > 0 && s[0] != 0 {
        lemma_nul_index(s.drop_first());
        if has_nul(s) {
            let i = choose|i: int| 0 <= i < s.len() && s[i] == 0;
            assert(s.drop_first()[i - 1] == 0);
            assert(has_nul(s.drop_first()));
        }
        assert forall|j: int| 0 <= j < nul_index(s) implies s[j] != 0 by {
            if j > 0 {
                assert(s.drop_first()[j - 1] != 0);
            }
        }
    }
}

/// A zero unit at position `i` with none before it is the first one.
pub proof fn lemma_nul_index_at(s: Seq<u16>, i: int)
    requires
        0 <= i < s.len(),
        s[i] == 0,
        forall|j: int| 0 <= j < i ==> s[j] != 0,
    ensures
        nul_index(s) == i,
    decreases i,
{
    if i > 0 {
        assert(forall|j: int| 0 <= j < i - 1 ==> s.drop_first()[j] != 0);
        lemma_nul_index_at(s.drop_first(), i - 1);
    }
}

/// A sequence without zero units is its own content.
pub proof fn lemma_content_no_nul(s: Seq<u16>)
    requires
        forall|i: int| 0 <= i < s.len() ==> s[i] != 0,
    ensures
        nul_index(s) == s.len(),
        content(s) == s,
    decreases s.len(),
{
    if s.len() > 0 {
        assert(forall|i: int| 0 <= i < s.drop_first().len() ==> s.drop_first()[i] != 0);
        lemma_content_no_nul(s.drop_first());
    }
    assert(content(s) =~= s);
}

/// Whether a slice is zero-terminated with no earlier zero unit: the only
/// acceptable shape for a checked view over a whole slice.
pub open spec fn nul_only_at_end(s: Seq<u16>) -> bool {
    s.len() >= 1 && s[s.len() - 1] == 0 && (forall|j: int| 0 <= j < s.len() - 1 ==> s[j] != 0)
}

/// Whether a character is a nonzero member of the seven-bit range, so it
/// widens to one nonzero unit.
pub open spec fn nonzero_ascii(c: char) -> bool {
    (c as u32) > 0 && (c as u32) < 128
}

/// The characters of an ASCII string as wide units, in order.
pub open spec fn widened(s: Seq<char>) -> Seq<u16> {
    Seq::new(s.len(), |i: int| s[i] as u16)
}

/// A read-only wide-character string, always containing a zero unit.
#[derive(Debug)]
pub struct WideStr {
    units: Vec<u16>,
}

impl View for WideStr {
    type V = Seq<u16>;

    closed spec fn view(&self) -> Seq<u16> {
        self.units@
    }
}

impl WideStr {
    /// The invariant: some unit is zero, so content is a strict prefix.
    #[verifier::type_invariant]
    pub closed spec fn wf(self) -> bool {
        has_nul(self.units@)
    }

    /// A view over the whole slice; the slice must end with its only zero
    /// unit, anything else is rejected as an invalid argument.
    pub fn from_slice_with_nul(u16s: &[u16]) -> (r: Result<WideStr, HResult>)
        ensures
            match r {
                Ok(w) => nul_only_at_end(u16s@) && w@ == u16s@,
                Err(e) => !nul_only_at_end(u16s@) && e == (HResult { code: E_INVALIDARG }),
            },
    {
        let n = u16s.len();
        let mut i: usize = 0;
        while i < n
            invariant
                0 <= i <= n,
                n == u16s@.len(),
                forall|j: int| 0 <= j < i ==> u16s@[j] != 0,
            decreases n - i,
        {
            if *vstd::slice::slice_index_get(u16s, i) == 0 {
                if i == n - 1 {
                    let w = WideStr { units: vstd::slice::slice_to_vec(u16s) };
                    proof {
                        assert(w.wf());
                    }
                    return Ok(w);
                } else {
                    return Err(HResult { code: E_INVALIDARG });
                }
            }
            i += 1;
        }
        Err(HResult { code: E_INVALIDARG })
    }

    /// A view over the whole slice; the slice must end with a zero unit, but
    /// earlier zero units are allowed and truncate the content.
    pub fn from_slice_until_nul(u16s: &[u16]) -> (r: Result<WideStr, HResult>)
        ensures
            match r {
                Ok(w) => u16s@.len() >= 1 && u16s@.last() == 0 && w@ == u16s@,
                Err(e) => !(u16s@.len() >= 1 && u16s@.last() == 0) && e == (HResult {
                    code: E_INVALIDARG,
                }),
            },
    {
        let n = u16s.len();
        if n >= 1 && *vstd::slice::slice_index_get(u16s, n - 1) == 0 {
            let w = WideStr { units: vstd::slice::slice_to_vec(u16s) };
            proof {
                assert(w.wf());
            }
            Ok(w)
        } else {
            Err(HResult { code: E_INVALIDARG })
        }
    }

    /// Widens an ASCII string without zero characters into a terminated
    /// wide string whose content mirrors the characters.
    pub fn from_ascii(s: &str) -> (r: WideStr)
        requires
            s@.len() < usize::MAX,
            forall|i: int| 0 <= i < s@.len() ==> nonzero_ascii(#[trigger] s@[i]),
        ensures
            r@.len() == s@.len() + 1,
            r@.last() == 0,
            content(r@) =~= widened(s@),
    {
        let n = s.unicode_len();
        let mut units: Vec<u16> = Vec::new();
        let mut i: usize = 0;
        while i < n
            invariant
                0 <= i <= n,
                n == s@.len(),
                n < usize::MAX,
                forall|k: int| 0 <= k < n ==> nonzero_ascii(#[trigger] s@[k]),
                units@.len() == i,
                forall|k: int| 0 <= k < i ==> #[trigger] units@[k] == s@[k] as u16 && units@[k]
                    != 0,
            decreases n - i,
        {
            let c = s.get_char(i);
            let u = c as u32;
            units.push(u as u16);
            i += 1;
        }
        units.push(0);
        proof {
            assert(units@[n as int] == 0);
            assert(has_nul(units@));
            lemma_nul_index_at(units@, n as int);
        }
        let w = WideStr { units };
        proof {
            assert(content(w@) =~= widened(s@));
        }
        w
    }

    /// The number of units before the terminating zero.
    pub fn count_units(&self) -> (r: usize)
        ensures
            r == nul_index(self@),
            r < self@.len(),
    {
        proof {
            use_type_invariant(self);
            lemma_nul_index(self@);
        }
        let n = self.units.len();
        let mut i: usize = 0;
        loop
            invariant
                has_nul(self@),
                n == self@.len(),
                0 <= i <= nul_index(self@),
                nul_index(self@) < self@.len(),
                forall|j: int| 0 <= j < i ==> self@[j] != 0,
            ensures
                i == nul_index(self@),
            decreases self@.len() - i,
        {
            proof {
                lemma_nul_index(self@);
            }
            if self.units[i] == 0 {
                proof {
                    lemma_nul_index_at(self@, i as int);
                }
                break ;
            }
            i += 1;
        }
        i
    }

    /// The content: every unit before the terminating zero.
    pub fn to_slice(&self) -> (r: &[u16])
        ensures
            r@ == content(self@),
    {
        let k = self.count_units();
        vstd::slice::slice_subrange(self.units.as_slice(), 0, k)
    }

    /// Compares the content with a foreign string's units: equal when the
    /// content is exactly the given units.
    pub fn matches_units(&self, units: &[u16]) -> (r: bool)
        ensures
            r == (content(self@) == units@),
    {
        let k = self.count_units();
        if k != units.len() {
            proof {
                assert(content(self@).len() != units@.len());
            }
            return false;
        }
        let mut i: usize = 0;
        while i < k
            invariant
                0 <= i <= k,
                k == nul_index(self@),
                k < self@.len(),
                k == units@.len(),
                forall|j: int| 0 <= j < i ==> self@[j] == units@[j],
            decreases k - i,
        {
            if self.units[i] != *vstd::slice::slice_index_get(units, i) {
                proof {
                    assert(content(self@)[i as int] != units@[i as int]);
                }
                return false;
            }
            i += 1;
        }
        proof {
            assert(content(self@) =~= units@);
        }
        true
    }

    /// Compares contents, unit for unit.
    pub fn content_eq(&self, other: &WideStr) -> (r: bool)
        ensures
            r == (content(self@) == content(other@)),
    {
        let a = self.count_units();
        let b = other.count_units();
        if a != b {
            proof {
                assert(content(self@).len() != content(other@).len());
            }
            return false;
        }
        let mut i: usize = 0;
        while i < a
            invariant
                0 <= i <= a,
                a == nul_index(self@),
                a == nul_index(other@),
                a < self@.len(),
                a < other@.len(),
                forall|j: int| 0 <= j < i ==> self@[j] == other@[j],
            decreases a - i,
        {
            if self.units[i] != other.units[i] {
                proof {
                    assert(content(self@)[i as int] != content(other@)[i as int]);
                }
                return false;
            }
            i += 1;
        }
        proof {
            assert(content(self@) =~= content(other@));
        }
        true
    }
}

impl Clone for WideStr {
    /// A clone keeps the units.
    fn clone(&self) -> (r: Self)
        ensures
            r@ == self@,
    {
        proof {
            use_type_invariant(self);
        }
        let units = self.units.clone();
        proof {
            assert(units@ =~= self.units@);
        }
        WideStr { units }
    }
}

impl PartialEq for WideStr {
    /// Views are equal when their contents are.
    fn eq(&self, other: &WideStr) -> (r: bool) {
        self.content_eq(other)
    }
}

impl vstd::std_specs::cmp::PartialEqSpecImpl for WideStr {
    open spec fn obeys_eq_spec() -> bool {
        true
    }

    open spec fn eq_spec(&self, other: &WideStr) -> bool {
        content(self@) == content(other@)
    }
}

} // verus!

