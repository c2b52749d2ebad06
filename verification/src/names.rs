//! Instance-name normalisation.

use vstd::prelude::*;
use vstd::string::*;

verus! {

/// `s` with every trailing `'.'` removed.
pub open spec fn trim_trailing_dots(s: Seq<char>) -> Seq<char>
    decreases s.len(),
{
    if s.len() > 0 && s.last() == '.' {
        trim_trailing_dots(s.drop_last())
    } else {
        s
    }
}

/// The trimmed name is a prefix of the original name, never ends with a dot,
/// and everything cut off is dots.
pub proof fn lemma_trim_trailing_dots(s: Seq<char>)
    ensures
        trim_trailing_dots(s).len() <= s.len(),
        trim_trailing_dots(s) =~= s.subrange(0, trim_trailing_dots(s).len() as int),
        trim_trailing_dots(s).len() == 0 || trim_trailing_dots(s).last() != '.',
        forall|i: int| trim_trailing_dots(s).len() <= i < s.len() ==> s[i] == '.',
    decreases s.len(),
{
    if s.len() > 0 && s.last() == '.' {
        lemma_trim_trailing_dots(s.drop_last());
        assert forall|i: int| trim_trailing_dots(s).len() <= i < s.len() implies s[i] == '.' by {
            if i < s.len() - 1 {
                assert(s.drop_last()[i] == s[i]);
            }
        }
    }
}

/// Removes all trailing `'.'` characters from `name`.
pub fn trim_dots(name: &str) -> (res: String)
    ensures
        res@ == trim_trailing_dots(name@),
{
    let n = name.unicode_len();
    let mut k: usize = n;
    proof {
        assert(name@.subrange(0, n as int) =~= name@);
    }
    while k > 0 && name.get_char(k - 1) == '.'
        invariant
            n == name@.len(),
            k <= n,
            trim_trailing_dots(name@) == trim_trailing_dots(name@.subrange(0, k as int)),
        decreases k,
    {
        proof {
            let t = name@.subrange(0, k as int);
            assert(t.drop_last() =~= name@.subrange(0, k - 1));
        }
        k = k - 1;
    }
    proof {
        lemma_trim_trailing_dots(name@.subrange(0, k as int));
    }
    name.substring_char(0, k).to_owned()
}

/// The instance label of the full name `full` of a service of type `ty`:
/// `full` without the suffix `"." + ty`, where it has that suffix.
pub open spec fn instance_label(full: Seq<char>, ty: Seq<char>) -> Option<Seq<char>> {
    let cut = full.len() - ty.len() - 1;
    if full.len() >= ty.len() + 1 && full.subrange(cut, full.len() as int) == "."@ + ty {
        Some(full.subrange(0, cut))
    } else {
        None
    }
}

/// Computes `instance_label(full, ty)`.
pub fn label_of(full: &str, ty: &str) -> (res: Option<String>)
    ensures
        match res {
            Some(l) => instance_label(full@, ty@) == Some(l@),
            None => instance_label(full@, ty@) is None,
        },
{
    let n = full.unicode_len();
    let m = ty.unicode_len();
    if n <= m {
        return None;
    }
    let cut = n - m - 1;
    let suffix = full.substring_char(cut, n).to_owned();
    let dotted = ".".to_owned().concat(ty);
    if suffix == dotted {
        Some(full.substring_char(0, cut).to_owned())
    } else {
        None
    }
}

} // verus!
