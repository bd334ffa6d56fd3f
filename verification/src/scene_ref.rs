//! Scene references: an asset path optionally suffixed with a scene label.
//!
//! A scene reference names a model file and one scene inside it, written
//! `path#SceneN` with `N` a decimal index. Parsing splits at the final `#`
//! and reads the trailing label; a reference with no `#`, with a label that
//! is not `Scene` followed by digits, or with an index too large for its
//! type falls back to the whole string as the path and scene index zero —
//! a malformed suffix is never an error, it is simply part of the path.

use vstd::prelude::*;

verus! {

/// A parsed scene reference: the asset path and the index of the scene to
/// load from it.
#[derive(Debug, PartialEq, Eq)]
pub struct SceneReference {
    pub path: String,
    pub scene_index: u32,
}

/// Whether the character is a decimal digit.
pub open spec fn spec_is_digit(c: char) -> bool {
    48 <= c as u32 && c as u32 <= 57
}

/// The numeric value of a decimal digit character.
pub open spec fn spec_digit_value(c: char) -> int {
    c as u32 - 48
}

/// Whether every character of the sequence is a decimal digit.
pub open spec fn spec_all_digits(s: Seq<char>) -> bool {
    forall|i: int| 0 <= i < s.len() ==> spec_is_digit(s[i])
}

/// The number a sequence of digit characters denotes, most significant
/// first.
pub open spec fn spec_digits_value(s: Seq<char>) -> int
    decreases s.len(),
{
    if s.len() == 0 {
        0
    } else {
        spec_digits_value(s.drop_last()) * 10 + spec_digit_value(s.last())
    }
}

/// The position of the final `#` in the sequence, if any.
pub open spec fn spec_last_hash(s: Seq<char>) -> Option<int>
    decreases s.len(),
{
    if s.len() == 0 {
        None
    } else if s.last() == '#' {
        Some(s.len() - 1)
    } else {
        spec_last_hash(s.drop_last())
    }
}

/// Whether the label after the `#` is the word `Scene` followed by at least
/// one digit and nothing else.
pub open spec fn spec_is_scene_label(label: Seq<char>) -> bool {
    label.len() > 5 && label[0] == 'S' && label[1] == 'c' && label[2] == 'e' && label[3] == 'n'
        && label[4] == 'e' && spec_all_digits(label.subrange(5, label.len() as int))
}

/// What parsing a scene reference yields: the path before the final `#` and
/// the label's index when the label is well formed and its value fits,
/// otherwise the whole string and index zero.
pub open spec fn spec_parse_scene_reference(s: Seq<char>) -> (Seq<char>, u32) {
    match spec_last_hash(s) {
        None => (s, 0u32),
        Some(h) => {
            let label = s.subrange(h + 1, s.len() as int);
            if spec_is_scene_label(label) {
                let v = spec_digits_value(label.subrange(5, label.len() as int));
                if v <= u32::MAX {
                    (s.subrange(0, h), v as u32)
                } else {
                    (s, 0u32)
                }
            } else {
                (s, 0u32)
            }
        },
    }
}

/// A `#` with no later `#` after it is the final one.
proof fn lemma_last_hash_found(s: Seq<char>, h: int)
    requires
        0 <= h < s.len(),
        s[h] == '#',
        forall|j: int| h < j < s.len() ==> s[j] != '#',
    ensures
        spec_last_hash(s) == Some(h),
    decreases s.len(),
{
    if h == s.len() - 1 {
    } else {
        assert(s.last() != '#');
        assert forall|j: int| h < j < s.drop_last().len() implies s.drop_last()[j] != '#' by {
            assert(s.drop_last()[j] == s[j]);
        }
        lemma_last_hash_found(s.drop_last(), h);
    }
}

/// A sequence without any `#` has no final one.
proof fn lemma_last_hash_none(s: Seq<char>)
    requires
        forall|j: int| 0 <= j < s.len() ==> s[j] != '#',
    ensures
        spec_last_hash(s) == None::<int>,
    decreases s.len(),
{
    if s.len() > 0 {
        assert forall|j: int| 0 <= j < s.drop_last().len() implies s.drop_last()[j] != '#' by {
            assert(s.drop_last()[j] == s[j]);
        }
        lemma_last_hash_none(s.drop_last());
    }
}

/// The value of a digit sequence is never negative.
proof fn lemma_digits_value_nonneg(s: Seq<char>)
    requires
        spec_all_digits(s),
    ensures
        spec_digits_value(s) >= 0,
    decreases s.len(),
{
    if s.len() > 0 {
        assert forall|i: int| 0 <= i < s.drop_last().len() implies spec_is_digit(
            s.drop_last()[i],
        ) by {
            assert(s.drop_last()[i] == s[i]);
        }
        lemma_digits_value_nonneg(s.drop_last());
    }
}

/// Reading more digits never shrinks the value: the value of any prefix of
/// a digit sequence is at most the value of the whole.
proof fn lemma_digits_value_prefix(s: Seq<char>, i: int)
    requires
        0 <= i <= s.len(),
        spec_all_digits(s),
    ensures
        spec_digits_value(s.subrange(0, i)) <= spec_digits_value(s),
    decreases s.len() - i,
{
    if i == s.len() {
        assert(s.subrange(0, i) =~= s);
    } else {
        let shorter = s.subrange(0, i);
        let longer = s.subrange(0, i + 1);
        assert forall|k: int| 0 <= k < shorter.len() implies spec_is_digit(shorter[k]) by {
            assert(shorter[k] == s[k]);
        }
        lemma_digits_value_nonneg(shorter);
        assert(longer.drop_last() =~= shorter);
        assert(spec_digits_value(longer) == spec_digits_value(shorter) * 10 + spec_digit_value(
            s[i],
        ));
        lemma_digits_value_prefix(s, i + 1);
    }
}

/// Parses a scene reference: splits at the final `#` and reads a trailing
/// `SceneN` label into a scene index, falling back to the whole string as
/// the path, with scene index zero, when there is no `#`, the label is
/// malformed, or the index does not fit.
#[verifier::loop_isolation(false)]
pub fn parse_scene_reference(s: &str) -> (r: SceneReference)
    ensures
        r.path@ == spec_parse_scene_reference(s@).0,
        r.scene_index == spec_parse_scene_reference(s@).1,
{
    let len: usize = s.unicode_len();
    let mut i: usize = len;
    let mut hash: Option<usize> = None;
    while hash.is_none() && i > 0
        invariant
            i <= len,
            len == s@.len(),
            hash matches Some(p) ==> p < len && s@[p as int] == '#' && (forall|j: int|
                p < j < len ==> s@[j] != '#'),
            hash is None ==> (forall|j: int| i <= j < len ==> s@[j] != '#'),
        decreases i,
    {
        i = i - 1;
        let c: char = s.get_char(i);
        if c == '#' {
            hash = Some(i);
        }
    }
    match hash {
        None => {
            proof {
                lemma_last_hash_none(s@);
            }
            SceneReference { path: s.to_owned(), scene_index: 0 }
        },
        Some(h) => {
            proof {
                lemma_last_hash_found(s@, h as int);
            }
            let ghost label = s@.subrange(h as int + 1, len as int);
            if len - h < 7 {
                // The label has fewer than six characters: no room for the
                // word and a digit.
                assert(label.len() <= 5);
                return SceneReference { path: s.to_owned(), scene_index: 0 };
            }
            let prefix_matches: bool = s.get_char(h + 1) == 'S' && s.get_char(h + 2) == 'c'
                && s.get_char(h + 3) == 'e' && s.get_char(h + 4) == 'n' && s.get_char(h + 5)
                == 'e';
            proof {
                assert(label[0] == s@[h as int + 1]);
                assert(label[1] == s@[h as int + 2]);
                assert(label[2] == s@[h as int + 3]);
                assert(label[3] == s@[h as int + 4]);
                assert(label[4] == s@[h as int + 5]);
            }
            if !prefix_matches {
                return SceneReference { path: s.to_owned(), scene_index: 0 };
            }
            let ghost digits = s@.subrange(h as int + 6, len as int);
            proof {
                assert(label.subrange(5, label.len() as int) =~= digits);
            }
            let mut value: u32 = 0;
            let mut j: usize = h + 6;
            while j < len
                invariant
                    h + 6 <= j <= len,
                    len == s@.len(),
                    h + 7 <= len,
                    forall|k: int| h + 6 <= k < j ==> spec_is_digit(s@[k]),
                    value as int == spec_digits_value(s@.subrange(h as int + 6, j as int)),
                decreases len - j,
            {
                let c: char = s.get_char(j);
                let cv: u32 = c as u32;
                if cv < 48 || cv > 57 {
                    // A non-digit in the label: the reference is not a
                    // scene label after all.
                    proof {
                        assert(digits[j - h - 6] == s@[j as int]);
                        assert(!spec_all_digits(digits));
                    }
                    return SceneReference { path: s.to_owned(), scene_index: 0 };
                }
                let digit: u32 = cv - 48;
                let next: u64 = value as u64 * 10 + digit as u64;
                proof {
                    let sub1 = s@.subrange(h as int + 6, j as int + 1);
                    assert(sub1.drop_last() =~= s@.subrange(h as int + 6, j as int));
                    assert(sub1.last() == s@[j as int]);
                    assert(next as int == spec_digits_value(sub1));
                }
                if next > 0xFFFF_FFFF {
                    // The index would not fit: by monotonicity the full
                    // label's value does not fit either.
                    proof {
                        if spec_is_scene_label(label) {
                            lemma_digits_value_prefix(digits, j as int + 1 - (h as int + 6));
                            assert(digits.subrange(0, j as int + 1 - (h as int + 6)) =~= s@
                                .subrange(h as int + 6, j as int + 1));
                        }
                    }
                    return SceneReference { path: s.to_owned(), scene_index: 0 };
                }
                value = next as u32;
                j = j + 1;
            }
            proof {
                assert(spec_is_scene_label(label));
                assert(value as int == spec_digits_value(digits));
            }
            let path: String = s.substring_char(0, h).to_owned();
            SceneReference { path, scene_index: value }
        },
    }
}

} // verus!
