//! The known name closest to a misspelt one, by edit distance.

use crate::config::ArgName;
use vstd::prelude::*;

verus! {

/// A misspelt name is matched with a known one at most this many edits away.
pub const MAX_EDITS: u128 = 2;

pub open spec fn min2(x: nat, y: nat) -> nat {
    if x <= y {
        x
    } else {
        y
    }
}

/// The least number of single-character insertions, deletions and
/// replacements that turn `a` into `b`.
pub open spec fn edit_distance(a: Seq<char>, b: Seq<char>) -> nat
    decreases a.len() + b.len(),
{
    if a.len() == 0 {
        b.len()
    } else if b.len() == 0 {
        a.len()
    } else {
        let replace: nat = if a.last() == b.last() {
            0
        } else {
            1
        };
        min2(
            min2(edit_distance(a.drop_last(), b) + 1, edit_distance(a, b.drop_last()) + 1),
            edit_distance(a.drop_last(), b.drop_last()) + replace,
        )
    }
}

/// Of `current` and `candidate`, the one closer to `name`; `current` on a tie.
pub open spec fn nearer(name: Seq<char>, current: ArgName, candidate: ArgName) -> ArgName {
    if edit_distance(name, candidate.spec_text()) < edit_distance(name, current.spec_text()) {
        candidate
    } else {
        current
    }
}

/// The known name closest to `name`; of several equally close, the one
/// declared first.
pub open spec fn nearest(name: Seq<char>) -> ArgName {
    let n1 = nearer(name, ArgName::Args, ArgName::Prefix);
    let n2 = nearer(name, n1, ArgName::Suffix);
    let n3 = nearer(name, n2, ArgName::CargoPrefix);
    let n4 = nearer(name, n3, ArgName::CargoSuffix);
    nearer(name, n4, ArgName::Fallback)
}

/// The known name to suggest for `name`: the closest one, if it is at
/// most [`MAX_EDITS`] edits away.
pub open spec fn spec_closest(name: Seq<char>) -> Option<ArgName> {
    let best = nearest(name);
    if edit_distance(name, best.spec_text()) <= MAX_EDITS {
        Some(best)
    } else {
        None
    }
}

/// The distance never exceeds the two lengths together.
pub proof fn lemma_edit_distance_bound(a: Seq<char>, b: Seq<char>)
    ensures
        edit_distance(a, b) <= a.len() + b.len(),
    decreases a.len() + b.len(),
{
    if a.len() != 0 && b.len() != 0 {
        lemma_edit_distance_bound(a.drop_last(), b.drop_last());
    }
}

/// A text is at distance zero from itself.
pub proof fn lemma_edit_distance_self(a: Seq<char>)
    ensures
        edit_distance(a, a) == 0,
    decreases a.len(),
{
    if a.len() != 0 {
        lemma_edit_distance_self(a.drop_last());
    }
}

/// No known name is closer to `name` than `nearest(name)`.
pub proof fn lemma_nearest_is_minimal(name: Seq<char>, other: ArgName)
    ensures
        edit_distance(name, nearest(name).spec_text()) <= edit_distance(name, other.spec_text()),
{
}

/// The characters of `text`, in order.
pub(crate) fn chars_of(text: &str) -> (chars: Vec<char>)
    ensures
        chars@ == text@,
{
    let n: usize = text.unicode_len();
    let mut chars: Vec<char> = Vec::new();
    let mut i: usize = 0;
    while i < n
        invariant
            n == text@.len(),
            i <= n,
            chars@ == text@.subrange(0, i as int),
        decreases n - i,
    {
        chars.push(text.get_char(i));
        i += 1;
        assert(chars@ =~= text@.subrange(0, i as int));
    }
    assert(chars@ =~= text@);
    chars
}

/// The edit distance between `a` and `b`, computed row by row over the
/// prefixes of `a`.
pub fn distance(a: &str, b: &str) -> (d: u128)
    ensures
        d == edit_distance(a@, b@),
{
    let a = chars_of(a);
    let b = chars_of(b);
    let m: usize = a.len();
    let n: usize = b.len();
    let mut prev: Vec<u128> = Vec::new();
    prev.push(0);
    let mut j: usize = 0;
    while j < n
        invariant
            j <= n,
            prev.len() == j + 1,
            forall|k: int| 0 <= k <= j ==> prev[k] == k,
        decreases n - j,
    {
        j += 1;
        prev.push(j as u128);
    }
    assert forall|k: int| 0 <= k <= n implies prev[k] == edit_distance(
        a@.subrange(0, 0),
        #[trigger] b@.subrange(0, k),
    ) by {}
    let mut i: usize = 0;
    while i < m
        invariant
            i <= m,
            m == a.len(),
            n == b.len(),
            prev.len() == n + 1,
            forall|k: int|
                0 <= k <= n ==> prev[k] == edit_distance(
                    a@.subrange(0, i as int),
                    #[trigger] b@.subrange(0, k),
                ),
        decreases m - i,
    {
        let ghost upper = a@.subrange(0, i as int);
        let ghost lower = a@.subrange(0, i + 1);
        assert(lower.drop_last() =~= upper);
        let mut cur: Vec<u128> = Vec::new();
        cur.push((i as u128) + 1);
        assert(b@.subrange(0, 0).len() == 0);
        let mut j: usize = 0;
        while j < n
            invariant
                j <= n,
                i < m,
                m == a.len(),
                n == b.len(),
                prev.len() == n + 1,
                cur.len() == j + 1,
                upper == a@.subrange(0, i as int),
                lower == a@.subrange(0, i + 1),
                lower.drop_last() == upper,
                forall|k: int|
                    0 <= k <= n ==> prev[k] == edit_distance(upper, #[trigger] b@.subrange(0, k)),
                forall|k: int|
                    0 <= k <= j ==> cur[k] == edit_distance(lower, #[trigger] b@.subrange(0, k)),
            decreases n - j,
        {
            let ghost left = b@.subrange(0, j as int);
            let ghost right = b@.subrange(0, j + 1);
            proof {
                assert(right.drop_last() =~= left);
                assert(lower.last() == a@[i as int]);
                assert(right.last() == b@[j as int]);
                lemma_edit_distance_bound(upper, right);
                lemma_edit_distance_bound(lower, left);
                lemma_edit_distance_bound(upper, left);
            }
            let replace: u128 = if a[i] == b[j] {
                0
            } else {
                1
            };
            let delete: u128 = prev[j + 1] + 1;
            let insert: u128 = cur[j] + 1;
            let change: u128 = prev[j] + replace;
            let side: u128 = if delete <= insert {
                delete
            } else {
                insert
            };
            let best: u128 = if side <= change {
                side
            } else {
                change
            };
            assert(best == edit_distance(lower, right));
            cur.push(best);
            j += 1;
        }
        prev = cur;
        i += 1;
    }
    assert(a@.subrange(0, m as int) =~= a@);
    assert(b@.subrange(0, n as int) =~= b@);
    prev[n]
}

/// The known name to suggest in place of the unknown `name`, if one is
/// close enough.
pub fn closest(name: &str) -> (suggestion: Option<ArgName>)
    ensures
        suggestion == spec_closest(name@),
{
    let mut best = ArgName::Args;
    let mut least: u128 = distance(name, ArgName::Args.text());
    let d: u128 = distance(name, ArgName::Prefix.text());
    if d < least {
        best = ArgName::Prefix;
        least = d;
    }
    let d: u128 = distance(name, ArgName::Suffix.text());
    if d < least {
        best = ArgName::Suffix;
        least = d;
    }
    let d: u128 = distance(name, ArgName::CargoPrefix.text());
    if d < least {
        best = ArgName::CargoPrefix;
        least = d;
    }
    let d: u128 = distance(name, ArgName::CargoSuffix.text());
    if d < least {
        best = ArgName::CargoSuffix;
        least = d;
    }
    let d: u128 = distance(name, ArgName::Fallback.text());
    if d < least {
        best = ArgName::Fallback;
        least = d;
    }
    if least <= MAX_EDITS {
        Some(best)
    } else {
        None
    }
}

} // verus!
