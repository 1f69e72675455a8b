//! Small verified string utilities: equality on string slices and splitting
//! on a separator, as the cloud CLI adapter needs for newline-delimited
//! output.

use vstd::prelude::*;

verus! {

/// Equality of two string slices, decided on their character sequences.
pub fn str_eq(a: &str, b: &str) -> (r: bool)
    ensures
        r == (a@ == b@),
{
    let x = a.to_owned();
    let y = b.to_owned();
    x == y
}

/// The pieces of `s` between non-overlapping occurrences of `sep`, matched
/// left to right; an `s` with no occurrence is the single piece `[s]`.
pub open spec fn split_spec(sep: Seq<char>, s: Seq<char>) -> Seq<Seq<char>>
    recommends
        sep.len() > 0,
    decreases s.len(),
{
    if sep.len() > 0 && sep.len() <= s.len() && s.subrange(0, sep.len() as int) == sep {
        seq![Seq::<char>::empty()] + split_spec(sep, s.subrange(sep.len() as int, s.len() as int))
    } else if s.len() == 0 {
        seq![s]
    } else {
        let rest = split_spec(sep, s.subrange(1, s.len() as int));
        rest.update(0, seq![s[0]] + rest[0])
    }
}

/// Splitting yields at least one piece.
pub proof fn lemma_split_spec_len(sep: Seq<char>, s: Seq<char>)
    ensures
        split_spec(sep, s).len() >= 1,
    decreases s.len(),
{
    if sep.len() > 0 && sep.len() <= s.len() && s.subrange(0, sep.len() as int) == sep {
        lemma_split_spec_len(sep, s.subrange(sep.len() as int, s.len() as int));
    } else if s.len() == 0 {
    } else {
        lemma_split_spec_len(sep, s.subrange(1, s.len() as int));
    }
}

fn split_rec(sep: &str, s: &str) -> (r: Vec<String>)
    requires
        sep@.len() >= 1,
    ensures
        r.deep_view() == split_spec(sep@, s@),
    decreases s@.len(),
{
    let s_len = s.unicode_len();
    let sep_len = sep.unicode_len();
    if sep_len <= s_len && str_eq(s.substring_char(0, sep_len), sep) {
        let tail = s.substring_char(sep_len, s_len);
        let mut r = split_rec(sep, tail);
        proof {
            lemma_split_spec_len(sep@, tail@);
        }
        let ghost pre = r;
        r.insert(0, String::new());
        proof {
            let target = split_spec(sep@, s@);
            assert(target == seq![Seq::<char>::empty()] + split_spec(sep@, tail@));
            assert forall|i: int| 0 <= i < r@.len() implies #[trigger] r.deep_view()[i]
                == target[i] by {
                assert(r.deep_view()[i] == r@[i]@);
                if i == 0 {
                    assert(r@[0]@ =~= Seq::<char>::empty());
                } else {
                    assert(r@[i] == pre@[i - 1]);
                    assert(pre.deep_view()[i - 1] == pre@[i - 1]@);
                }
            }
            assert(r.deep_view() =~= target);
        }
        r
    } else if s_len == 0 {
        let mut r: Vec<String> = Vec::new();
        r.push(s.to_owned());
        proof {
            assert(r.deep_view()[0] == r@[0]@);
            assert(r.deep_view() =~= split_spec(sep@, s@));
        }
        r
    } else {
        let tail = s.substring_char(1, s_len);
        let mut r = split_rec(sep, tail);
        proof {
            lemma_split_spec_len(sep@, tail@);
        }
        let ghost rest = split_spec(sep@, tail@);
        let ghost pre = r;
        let first = r.remove(0);
        let head = s.substring_char(0, 1);
        let piece = head.to_owned().concat(first.as_str());
        let ghost mid = r;
        r.insert(0, piece);
        proof {
            let target = split_spec(sep@, s@);
            assert(target == rest.update(0, seq![s@[0]] + rest[0]));
            assert(pre.deep_view()[0] == pre@[0]@);
            assert(head@ =~= seq![s@[0]]);
            assert(piece@ == seq![s@[0]] + rest[0]);
            assert forall|i: int| 0 <= i < r@.len() implies #[trigger] r.deep_view()[i]
                == target[i] by {
                assert(r.deep_view()[i] == r@[i]@);
                if i > 0 {
                    assert(r@[i] == mid@[i - 1]);
                    assert(mid@[i - 1] == pre@[i]);
                    assert(pre.deep_view()[i] == pre@[i]@);
                }
            }
            assert(r.deep_view() =~= target);
        }
        r
    }
}

/// The pieces of `string` between occurrences of `split`; an empty `string`
/// yields no pieces at all, never a single empty piece.
pub fn split_string(split: &str, string: String) -> (r: Vec<String>)
    requires
        split@.len() >= 1,
    ensures
        string@.len() == 0 ==> r@ == Seq::<String>::empty(),
        string@.len() > 0 ==> r.deep_view() == split_spec(split@, string@),
{
    if string.as_str().is_empty() {
        Vec::new()
    } else {
        split_rec(split, string.as_str())
    }
}

} // verus!
