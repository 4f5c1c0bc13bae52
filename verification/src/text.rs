//! Small verified text helpers shared by the emitters: comma splitting for
//! name lists and for interchange item lists.

use vstd::prelude::*;

verus! {

/// Splitting a character sequence on commas, empty pieces kept.
pub open spec fn split_commas(s: Seq<char>) -> Seq<Seq<char>>
    decreases s.len(),
{
    if s.len() == 0 {
        seq![Seq::<char>::empty()]
    } else {
        let rest = split_commas(s.drop_last());
        if s.last() == ',' {
            rest.push(Seq::<char>::empty())
        } else {
            rest.update(rest.len() - 1, rest.last().push(s.last()))
        }
    }
}

/// A split always yields at least one piece.
pub proof fn lemma_split_commas_len(s: Seq<char>)
    ensures
        split_commas(s).len() >= 1,
    decreases s.len(),
{
    if s.len() > 0 {
        lemma_split_commas_len(s.drop_last());
    }
}

/// The listed strings are exactly the given character sequences.
pub open spec fn views_match(v: Seq<String>, s: Seq<Seq<char>>) -> bool {
    &&& v.len() == s.len()
    &&& forall|i: int| 0 <= i < s.len() ==> (#[trigger] v[i])@ == s[i]
}

/// Split a comma-separated list, keeping empty pieces.
pub fn split_commas_list(s: &str) -> (r: Vec<String>)
    ensures
        views_match(r@, split_commas(s@)),
{
    let n = s.unicode_len();
    let mut pieces: Vec<String> = Vec::new();
    let mut start: usize = 0;
    for i in 0..n
        invariant
            n == s@.len(),
            start <= i <= n,
            split_commas(s@.subrange(0, i as int)).len() == pieces@.len() + 1,
            forall|k: int|
                0 <= k < pieces@.len() ==> (#[trigger] pieces@[k])@ == split_commas(
                    s@.subrange(0, i as int),
                )[k],
            split_commas(s@.subrange(0, i as int)).last() == s@.subrange(
                start as int,
                i as int,
            ),
    {
        proof {
            lemma_split_commas_len(s@.subrange(0, i + 1));
            assert(s@.subrange(0, i + 1).drop_last() =~= s@.subrange(0, i as int));
            assert(s@.subrange(0, i + 1).last() == s@[i as int]);
        }
        let c = s.get_char(i);
        if c == ',' {
            let piece = s.substring_char(start, i).to_owned();
            proof {
                assert(piece@ == s@.subrange(start as int, i as int));
            }
            pieces.push(piece);
            start = i + 1;
            proof {
                assert(s@.subrange(start as int, i + 1) =~= Seq::<char>::empty());
            }
        } else {
            proof {
                assert(s@.subrange(start as int, i + 1) =~= s@.subrange(
                    start as int,
                    i as int,
                ).push(s@[i as int]));
            }
        }
    }
    proof {
        assert(s@.subrange(0, n as int) =~= s@);
    }
    let last_piece = s.substring_char(start, n).to_owned();
    pieces.push(last_piece);
    pieces
}

} // verus!
