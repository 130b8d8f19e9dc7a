//! Lists of extension and layer names, and the exact-match tests on them.

use vstd::prelude::*;

verus! {

/// The names that a list holds, in order, each as its characters.
pub open spec fn names_of(list: Seq<String>) -> Seq<Seq<char>> {
    list.map_values(|s: String| s@)
}

/// Every name of `wanted` occurs in `list`.
pub open spec fn has_all(list: Seq<Seq<char>>, wanted: Seq<Seq<char>>) -> bool {
    forall|j: int| 0 <= j < wanted.len() ==> list.contains(#[trigger] wanted[j])
}

/// Some name of `candidates` occurs in `list`.
pub open spec fn has_any(list: Seq<Seq<char>>, candidates: Seq<Seq<char>>) -> bool {
    exists|j: int| 0 <= j < candidates.len() && list.contains(#[trigger] candidates[j])
}

/// The names of `wanted` that do not occur in `list`, in the order of `wanted`.
pub open spec fn missing_from(list: Seq<Seq<char>>, wanted: Seq<Seq<char>>) -> Seq<Seq<char>> {
    wanted.filter(|n: Seq<char>| !list.contains(n))
}

/// Whitespace, as Unicode defines it: the characters with the property
/// `White_Space`.
pub open spec fn is_space(c: char) -> bool {
    let n = c as u32;
    ||| 0x09 <= n <= 0x0d
    ||| n == 0x20
    ||| n == 0x85
    ||| n == 0xa0
    ||| n == 0x1680
    ||| 0x2000 <= n <= 0x200a
    ||| n == 0x2028
    ||| n == 0x2029
    ||| n == 0x202f
    ||| n == 0x205f
    ||| n == 0x3000
}

/// The word that was read, if any: between two separators there may be none.
pub open spec fn word_read(word: Seq<char>) -> Seq<Seq<char>> {
    if word.len() == 0 {
        Seq::empty()
    } else {
        seq![word]
    }
}

/// The names in the rest of a text, where `word` holds what was read of
/// the name that the rest begins in.
pub open spec fn names_from(rest: Seq<char>, word: Seq<char>) -> Seq<Seq<char>>
    decreases rest.len(),
{
    if rest.len() == 0 {
        word_read(word)
    } else if is_space(rest[0]) {
        word_read(word) + names_from(rest.drop_first(), Seq::empty())
    } else {
        names_from(rest.drop_first(), word.push(rest[0]))
    }
}

/// The names in a text that separates them by any amount of whitespace:
/// its longest runs of other characters, in order.
pub open spec fn names_in(text: Seq<char>) -> Seq<Seq<char>> {
    names_from(text, Seq::empty())
}

/// Tests whether a character is whitespace.
pub fn is_whitespace(c: char) -> (space: bool)
    ensures
        space == is_space(c),
{
    let n: u32 = c as u32;
    (0x09 <= n && n <= 0x0d) || n == 0x20 || n == 0x85 || n == 0xa0 || n == 0x1680 || (0x2000 <= n
        && n <= 0x200a) || n == 0x2028 || n == 0x2029 || n == 0x202f || n == 0x205f || n == 0x3000
}

/// Tests whether the character at a place of a text is whitespace. In a
/// text of ASCII characters the place is found at once.
fn space_at(text: &str, i: usize, ascii: bool) -> (space: bool)
    requires
        i < text@.len(),
        ascii ==> text.is_ascii(),
    ensures
        space == is_space(text@[i as int]),
{
    if ascii {
        let b: u8 = text.get_ascii(i);
        (0x09 <= b && b <= 0x0d) || b == 0x20
    } else {
        is_whitespace(text.get_char(i))
    }
}

/// The part of a text between two places, as a string of its own.
fn name_at(text: &str, from: usize, to: usize, ascii: bool) -> (name: String)
    requires
        from <= to <= text@.len(),
        ascii ==> text.is_ascii(),
    ensures
        name@ == text@.subrange(from as int, to as int),
{
    if ascii {
        text.substring_ascii(from, to).to_owned()
    } else {
        text.substring_char(from, to).to_owned()
    }
}

/// The names in an extension string, which separates them by whitespace.
pub fn split_names(text: &str) -> (list: Vec<String>)
    ensures
        names_of(list@) == names_in(text@),
{
    let ascii = text.is_ascii();
    let n = text.unicode_len();
    let mut list: Vec<String> = Vec::new();
    let mut start: usize = 0;
    let mut i: usize = 0;
    proof {
        assert(text@.skip(0) =~= text@);
        assert(text@.subrange(0, 0) =~= Seq::<char>::empty());
        assert(names_of(list@) =~= Seq::<Seq<char>>::empty());
        assert(names_of(list@) + names_in(text@) =~= names_in(text@));
    }
    while i < n
        invariant
            n == text@.len(),
            ascii ==> text.is_ascii(),
            start <= i <= n,
            names_of(list@) + names_from(text@.skip(i as int), text@.subrange(start as int, i as int))
                == names_in(text@),
        decreases n - i,
    {
        let ghost rest = text@.skip(i as int);
        let ghost word = text@.subrange(start as int, i as int);
        let ghost before = names_of(list@);
        proof {
            assert(rest[0] == text@[i as int]);
            assert(rest.drop_first() =~= text@.skip(i + 1));
        }
        if space_at(text, i, ascii) {
            if start < i {
                list.push(name_at(text, start, i, ascii));
            }
            start = i + 1;
            proof {
                assert(names_of(list@) =~= before + word_read(word));
                assert(text@.subrange(start as int, i + 1) =~= Seq::<char>::empty());
                assert(before + (word_read(word) + names_from(text@.skip(i + 1), Seq::empty()))
                    =~= (before + word_read(word)) + names_from(text@.skip(i + 1), Seq::empty()));
            }
        } else {
            proof {
                assert(word.push(rest[0]) =~= text@.subrange(start as int, i + 1));
            }
        }
        i += 1;
    }
    let ghost before = names_of(list@);
    let ghost word = text@.subrange(start as int, n as int);
    proof {
        assert(text@.skip(n as int) =~= Seq::<char>::empty());
    }
    if start < n {
        list.push(name_at(text, start, n, ascii));
    }
    assert(names_of(list@) =~= before + word_read(word));
    list
}

/// Tests whether `name` occurs in `list`, by exact match.
pub fn contains_name(list: &Vec<String>, name: &String) -> (found: bool)
    ensures
        found == names_of(list@).contains(name@),
{
    let mut i: usize = 0;
    while i < list.len()
        invariant
            i <= list.len(),
            forall|k: int| 0 <= k < i ==> names_of(list@)[k] != name@,
        decreases list.len() - i,
    {
        if list[i] == *name {
            assert(names_of(list@)[i as int] == name@);
            return true;
        }
        i += 1;
    }
    false
}

/// Tests whether every name of `wanted` occurs in `list`.
pub fn contains_all(list: &Vec<String>, wanted: &Vec<String>) -> (all: bool)
    ensures
        all == has_all(names_of(list@), names_of(wanted@)),
{
    let mut j: usize = 0;
    while j < wanted.len()
        invariant
            j <= wanted.len(),
            forall|k: int| 0 <= k < j ==> names_of(list@).contains(#[trigger] names_of(wanted@)[k]),
        decreases wanted.len() - j,
    {
        if !contains_name(list, &wanted[j]) {
            assert(!names_of(list@).contains(names_of(wanted@)[j as int]));
            return false;
        }
        j += 1;
    }
    true
}

/// Tests whether some name of `candidates` occurs in `list`.
pub fn contains_any(list: &Vec<String>, candidates: &Vec<String>) -> (any: bool)
    ensures
        any == has_any(names_of(list@), names_of(candidates@)),
{
    let mut j: usize = 0;
    while j < candidates.len()
        invariant
            j <= candidates.len(),
            forall|k: int| 0 <= k < j ==> !names_of(list@).contains(#[trigger] names_of(candidates@)[k]),
        decreases candidates.len() - j,
    {
        if contains_name(list, &candidates[j]) {
            assert(names_of(list@).contains(names_of(candidates@)[j as int]));
            return true;
        }
        j += 1;
    }
    false
}

/// The names of `wanted` that `list` lacks, in the order of `wanted`.
pub fn missing_names(list: &Vec<String>, wanted: &Vec<String>) -> (missing: Vec<String>)
    ensures
        names_of(missing@) == missing_from(names_of(list@), names_of(wanted@)),
        missing@.len() == 0 <==> has_all(names_of(list@), names_of(wanted@)),
{
    proof {
        nothing_missing_means_all_present(names_of(list@), names_of(wanted@));
    }
    let mut missing: Vec<String> = Vec::new();
    let ghost absent = |n: Seq<char>| !names_of(list@).contains(n);
    let ghost all = names_of(wanted@);
    let mut j: usize = 0;
    assert(all.take(0) =~= Seq::<Seq<char>>::empty());
    assert(names_of(missing@) =~= Seq::<Seq<char>>::empty());
    while j < wanted.len()
        invariant
            j <= wanted.len(),
            all == names_of(wanted@),
            absent == (|n: Seq<char>| !names_of(list@).contains(n)),
            names_of(missing@) == all.take(j as int).filter(absent),
        decreases wanted.len() - j,
    {
        let ghost before = names_of(missing@);
        proof {
            assert(all.take(j + 1) =~= all.take(j as int).push(all[j as int]));
            push_filter(all.take(j as int), all[j as int], absent);
        }
        if !contains_name(list, &wanted[j]) {
            missing.push(wanted[j].clone());
            assert(names_of(missing@) =~= before.push(all[j as int]));
        }
        j += 1;
    }
    assert(all.take(wanted.len() as int) =~= all);
    missing
}

/// Appends the names of `extra` to `list`, in order. Nothing is removed,
/// and a name that is already there is added again.
pub fn extend_names(list: &mut Vec<String>, extra: &Vec<String>)
    ensures
        names_of(final(list)@) == names_of(old(list)@) + names_of(extra@),
{
    let ghost start = names_of(list@);
    let mut j: usize = 0;
    assert(names_of(extra@).take(0) =~= Seq::<Seq<char>>::empty());
    assert(start + names_of(extra@).take(0) =~= start);
    while j < extra.len()
        invariant
            j <= extra.len(),
            names_of(list@) == start + names_of(extra@).take(j as int),
        decreases extra.len() - j,
    {
        let ghost before = names_of(list@);
        list.push(extra[j].clone());
        assert(names_of(list@) =~= before.push(names_of(extra@)[j as int]));
        assert(names_of(extra@).take(j + 1) =~= names_of(extra@).take(j as int).push(
            names_of(extra@)[j as int],
        ));
        assert(names_of(list@) =~= start + names_of(extra@).take(j + 1));
        j += 1;
    }
    assert(names_of(extra@).take(extra.len() as int) =~= names_of(extra@));
}

/// A text holds no whitespace.
pub open spec fn is_word(text: Seq<char>) -> bool {
    forall|k: int| 0 <= k < text.len() ==> !is_space(#[trigger] text[k])
}

/// The names in a text are words, and none is empty.
pub proof fn names_are_words(text: Seq<char>)
    ensures
        forall|j: int|
            0 <= j < names_in(text).len() ==> (#[trigger] names_in(text)[j]).len() > 0 && is_word(
                names_in(text)[j],
            ),
{
    names_from_are_words(text, Seq::empty());
}

/// A text without whitespace is one name, unless it is empty.
pub proof fn word_is_one_name(text: Seq<char>)
    requires
        is_word(text),
    ensures
        names_in(text) == word_read(text),
{
    word_is_read(text, Seq::empty());
    assert(Seq::<char>::empty() + text =~= text);
}

proof fn names_from_are_words(rest: Seq<char>, word: Seq<char>)
    requires
        is_word(word),
    ensures
        forall|j: int|
            0 <= j < names_from(rest, word).len() ==> (#[trigger] names_from(rest, word)[j]).len()
                > 0 && is_word(names_from(rest, word)[j]),
    decreases rest.len(),
{
    if rest.len() == 0 {
        assert(names_from(rest, word) == word_read(word));
    } else if is_space(rest[0]) {
        let head = word_read(word);
        let tail = names_from(rest.drop_first(), Seq::empty());
        assert(names_from(rest, word) == head + tail);
        names_from_are_words(rest.drop_first(), Seq::empty());
        assert forall|j: int| 0 <= j < (head + tail).len() implies (#[trigger] (head + tail)[j]).len()
            > 0 && is_word((head + tail)[j]) by {
            if j < head.len() {
                assert((head + tail)[j] == word);
            } else {
                assert((head + tail)[j] == tail[j - head.len()]);
            }
        }
    } else {
        let longer = word.push(rest[0]);
        assert forall|k: int| 0 <= k < longer.len() implies !is_space(#[trigger] longer[k]) by {
            if k < word.len() {
                assert(longer[k] == word[k]);
            }
        }
        names_from_are_words(rest.drop_first(), longer);
        assert(names_from(rest, word) == names_from(rest.drop_first(), longer));
    }
}

proof fn word_is_read(rest: Seq<char>, word: Seq<char>)
    requires
        is_word(rest),
    ensures
        names_from(rest, word) == word_read(word + rest),
    decreases rest.len(),
{
    if rest.len() == 0 {
        assert(word + rest =~= word);
    } else {
        assert(!is_space(rest[0]));
        assert forall|k: int| 0 <= k < rest.drop_first().len() implies !is_space(
            #[trigger] rest.drop_first()[k],
        ) by {
            assert(rest.drop_first()[k] == rest[k + 1]);
        }
        word_is_read(rest.drop_first(), word.push(rest[0]));
        assert(word.push(rest[0]) + rest.drop_first() =~= word + rest);
    }
}

/// Nothing is missing exactly if every wanted name is there.
pub proof fn nothing_missing_means_all_present(list: Seq<Seq<char>>, wanted: Seq<Seq<char>>)
    ensures
        missing_from(list, wanted).len() == 0 <==> has_all(list, wanted),
    decreases wanted.len(),
{
    let absent = |n: Seq<char>| !list.contains(n);
    if wanted.len() == 0 {
        reveal(Seq::filter);
    } else {
        let rest = wanted.drop_last();
        let last = wanted.last();
        nothing_missing_means_all_present(list, rest);
        assert(rest.push(last) =~= wanted);
        push_filter(rest, last, absent);
        if has_all(list, wanted) {
            assert(list.contains(wanted[wanted.len() - 1]));
            assert forall|j: int| 0 <= j < rest.len() implies list.contains(#[trigger] rest[j]) by {
                assert(rest[j] == wanted[j]);
            }
        }
        if missing_from(list, wanted).len() == 0 {
            assert forall|j: int| 0 <= j < wanted.len() implies list.contains(
                #[trigger] wanted[j],
            ) by {
                if j < rest.len() {
                    assert(rest[j] == wanted[j]);
                }
            }
        }
    }
}

/// Filtering a sequence with one more item keeps that item exactly when the
/// test holds of it.
proof fn push_filter(s: Seq<Seq<char>>, last: Seq<char>, pred: spec_fn(Seq<char>) -> bool)
    ensures
        s.push(last).filter(pred) == if pred(last) {
            s.filter(pred).push(last)
        } else {
            s.filter(pred)
        },
{
    reveal(Seq::filter);
    assert(s.push(last).drop_last() =~= s);
}

} // verus!
