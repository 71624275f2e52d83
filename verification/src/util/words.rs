use vstd::prelude::*;

verus! {

/// The pieces of `s` between single spaces, empty pieces included, as `str::split(' ')`
/// gives them.
pub open spec fn split_spaces(s: Seq<char>) -> Seq<Seq<char>>
    decreases s.len(),
{
    if s.len() == 0 {
        seq![Seq::<char>::empty()]
    } else {
        let previous = split_spaces(s.drop_last());
        if s.last() == ' ' {
            previous.push(Seq::<char>::empty())
        } else {
            previous.update(previous.len() - 1, previous.last().push(s.last()))
        }
    }
}

/// There is always at least one piece.
pub proof fn lemma_split_spaces_len(s: Seq<char>)
    ensures
        split_spaces(s).len() >= 1,
    decreases s.len(),
{
    if s.len() > 0 {
        lemma_split_spaces_len(s.drop_last());
    }
}

/// The views of a list of strings.
pub open spec fn views(words: Seq<String>) -> Seq<Seq<char>> {
    words.map_values(|w: String| w@)
}

/// The views of a list of string slices.
pub open spec fn str_views(words: Seq<&str>) -> Seq<Seq<char>> {
    words.map_values(|w: &str| w@)
}

/// Splits `s` at each space, as `str::split(' ')` does.
pub fn split_words(s: &str) -> (r: Vec<String>)
    ensures
        views(r@) == split_spaces(s@),
{
    let n = s.unicode_len();
    let mut words: Vec<String> = Vec::new();
    let mut start: usize = 0;
    let mut i: usize = 0;
    proof {
        assert(s@.take(0) =~= Seq::<char>::empty());
        assert(views(words@).push(s@.subrange(0, 0)) =~= split_spaces(s@.take(0)));
    }
    while i < n
        invariant
            n == s@.len(),
            start <= i <= n,
            views(words@).push(s@.subrange(start as int, i as int)) == split_spaces(s@.take(i as int)),
        decreases n - i,
    {
        let c = s.get_char(i);
        proof {
            assert(s@.take(i + 1).drop_last() =~= s@.take(i as int));
            assert(s@.take(i + 1).last() == c);
            lemma_split_spaces_len(s@.take(i as int));
        }
        if c == ' ' {
            let ghost old_start = start;
            let ghost previous = words@;
            let word = String::from_str(s.substring_char(start, i));
            words.push(word);
            start = i + 1;
            proof {
                assert(views(words@) =~= views(previous).push(s@.subrange(old_start as int, i as int)));
                assert(s@.subrange(start as int, i + 1) =~= Seq::<char>::empty());
            }
            assert(views(words@).push(s@.subrange(start as int, i + 1)) =~= split_spaces(s@.take(i + 1)));
        } else {
            assert(s@.subrange(start as int, i + 1) =~= s@.subrange(start as int, i as int).push(c));
            assert(views(words@).push(s@.subrange(start as int, i + 1)) =~= split_spaces(s@.take(i + 1)));
        }
        i = i + 1;
    }
    let last = String::from_str(s.substring_char(start, n));
    let ghost previous = words@;
    words.push(last);
    proof {
        assert(s@.take(n as int) =~= s@);
        assert(views(words@) =~= views(previous).push(s@.subrange(start as int, n as int)));
    }
    words
}

} // verus!
