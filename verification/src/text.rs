//! Putting strings together.

use vstd::prelude::*;

verus! {

/// `head`, then `tail`, as one string.
pub fn followed_by(head: &str, tail: &str) -> (text: String)
    ensures
        text@ == head@ + tail@,
{
    let mut text = head.to_owned();
    text.append(tail);
    text
}

/// `first`, then `middle`, then `last`, as one string.
pub fn glue(first: &str, middle: &str, last: &str) -> (text: String)
    ensures
        text@ == first@ + middle@ + last@,
{
    let mut text = first.to_owned();
    text.append(middle);
    text.append(last);
    text
}

/// The text of each string of a sequence.
pub open spec fn texts(strings: Seq<String>) -> Seq<Seq<char>> {
    Seq::new(strings.len(), |i: int| strings[i]@)
}

/// The texts of a sequence of pairs of strings.
pub open spec fn text_pairs(pairs: Seq<(String, String)>) -> Seq<(Seq<char>, Seq<char>)> {
    Seq::new(pairs.len(), |i: int| (pairs[i].0@, pairs[i].1@))
}

/// The words of `words`, in order, with `separator` between each two.
pub open spec fn joined(words: Seq<Seq<char>>, separator: Seq<char>) -> Seq<char>
    decreases words.len(),
{
    if words.len() == 0 {
        Seq::empty()
    } else if words.len() == 1 {
        words[0]
    } else {
        joined(words.drop_last(), separator) + separator + words.last()
    }
}

/// Joins `words` with `separator` between each two.
pub fn join_words(words: &Vec<String>, separator: &str) -> (text: String)
    ensures
        text@ == joined(texts(words@), separator@),
{
    let mut text = String::new();
    let mut i: usize = 0;
    while i < words.len()
        invariant
            i <= words@.len(),
            text@ == joined(texts(words@).take(i as int), separator@),
        decreases words@.len() - i,
    {
        proof {
            let all = texts(words@);
            let next = all.take(i + 1);
            assert(next.drop_last() =~= all.take(i as int));
            assert(next.last() == words@[i as int]@);
            if i == 0 {
                assert(text@ =~= Seq::<char>::empty());
                assert(Seq::<char>::empty() + words@[0]@ =~= words@[0]@);
            }
        }
        if i > 0 {
            text.append(separator);
        }
        text.append(words[i].as_str());
        i += 1;
    }
    proof {
        assert(texts(words@).take(words@.len() as int) =~= texts(words@));
    }
    text
}

/// Appends a copy of `word` to `words`.
pub fn push_word(words: &mut Vec<String>, word: &str)
    ensures
        texts(final(words)@) == texts(old(words)@).push(word@),
{
    words.push(word.to_owned());
    assert(texts(words@) =~= texts(old(words)@).push(word@));
}

/// Appends the pair of a name and a value to `pairs`.
pub fn push_pair(pairs: &mut Vec<(String, String)>, name: &str, value: &str)
    ensures
        text_pairs(final(pairs)@) == text_pairs(old(pairs)@).push((name@, value@)),
{
    pairs.push((name.to_owned(), value.to_owned()));
    assert(text_pairs(pairs@) =~= text_pairs(old(pairs)@).push((name@, value@)));
}

} // verus!
