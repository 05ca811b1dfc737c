//! Normalisation of names into folder names and configuration file names.
use crate::text::{
    all_ascii,
    ascii_lowercase,
    capital,
    is_ascii_char,
    is_capital,
    lowered,
    push_char,
    string_of,
    to_lower,
};
use vstd::prelude::*;
use vstd::string::*;

verus! {

/// The characters that a folder name replaces by a hyphen.
pub open spec fn folder_separator(c: char) -> bool {
    c == '_' || c == ' ' || c == '.'
}

/// `s` with every underscore, space and dot turned into a hyphen.
pub open spec fn hyphenated(s: Seq<char>) -> Seq<char> {
    s.map_values(|c: char| if folder_separator(c) { '-' } else { c })
}

/// The standard folder name of `name`: separators become hyphens, then the
/// whole is put in lowercase.
pub open spec fn folder_name(name: Seq<char>) -> Seq<char> {
    lowered(hyphenated(name))
}

/// The characters that a Python folder name replaces by an underscore.
pub open spec fn py_folder_separator(c: char) -> bool {
    c == '-' || c == ' ' || c == '.'
}

/// `s` with every hyphen, space and dot turned into an underscore.
pub open spec fn underscored(s: Seq<char>) -> Seq<char> {
    s.map_values(|c: char| if py_folder_separator(c) { '_' } else { c })
}

/// The Python folder name of `name`: separators become underscores, then the
/// whole is put in lowercase.
pub open spec fn py_folder_name(name: Seq<char>) -> Seq<char> {
    lowered(underscored(name))
}

/// Before lowercasing, a folder name keeps the length of the name and holds
/// no underscore, space or dot; hyphenating twice changes nothing.
pub proof fn hyphenated_has_no_separator(s: Seq<char>)
    ensures
        hyphenated(s).len() == s.len(),
        forall|i: int| 0 <= i < s.len() ==> !folder_separator(#[trigger] hyphenated(s)[i]),
        forall|i: int|
            0 <= i < s.len() && !folder_separator(s[i]) ==> #[trigger] hyphenated(s)[i] == s[i],
        forall|i: int|
            0 <= i < s.len() && folder_separator(s[i]) ==> #[trigger] hyphenated(s)[i] == '-',
        hyphenated(hyphenated(s)) == hyphenated(s),
{
    assert(hyphenated(hyphenated(s)) =~= hyphenated(s));
}

/// Before lowercasing, a Python folder name keeps the length of the name and
/// holds no hyphen, space or dot; underscoring twice changes nothing.
pub proof fn underscored_has_no_separator(s: Seq<char>)
    ensures
        underscored(s).len() == s.len(),
        forall|i: int| 0 <= i < s.len() ==> !py_folder_separator(#[trigger] underscored(s)[i]),
        forall|i: int|
            0 <= i < s.len() && !py_folder_separator(s[i]) ==> #[trigger] underscored(s)[i] == s[i],
        forall|i: int|
            0 <= i < s.len() && py_folder_separator(s[i]) ==> #[trigger] underscored(s)[i] == '_',
        underscored(underscored(s)) == underscored(s),
{
    assert(underscored(underscored(s)) =~= underscored(s));
}

/// The folder name of a name of ASCII characters has, place by place, the
/// lowercase of the name's character, with a hyphen for an underscore, a
/// space and a dot. So it holds no capital letter, no underscore, no space
/// and no dot.
pub proof fn folder_name_of_ascii(name: Seq<char>)
    requires
        all_ascii(name),
    ensures
        folder_name(name).len() == name.len(),
        forall|i: int|
            0 <= i < name.len() ==> #[trigger] folder_name(name)[i] == ascii_lowercase(
                hyphenated(name)[i],
            ),
        forall|i: int|
            0 <= i < name.len() ==> !folder_separator(#[trigger] folder_name(name)[i]) && !capital(
                folder_name(name)[i],
            ),
{
    assert(all_ascii(hyphenated(name))) by {
        assert forall|i: int| 0 <= i < hyphenated(name).len() implies is_ascii_char(
            #[trigger] hyphenated(name)[i],
        ) by {
            assert(is_ascii_char(name[i]));
        }
    }
    assert forall|i: int| 0 <= i < name.len() implies !folder_separator(
        #[trigger] folder_name(name)[i],
    ) && !capital(folder_name(name)[i]) by {
        assert(is_ascii_char(name[i]));
        assert(folder_name(name)[i] == ascii_lowercase(hyphenated(name)[i]));
    }
}

/// The Python folder name of a name of ASCII characters has, place by place,
/// the lowercase of the name's character, with an underscore for a hyphen, a
/// space and a dot. So it holds no capital letter, no hyphen, no space and
/// no dot.
pub proof fn py_folder_name_of_ascii(name: Seq<char>)
    requires
        all_ascii(name),
    ensures
        py_folder_name(name).len() == name.len(),
        forall|i: int|
            0 <= i < name.len() ==> #[trigger] py_folder_name(name)[i] == ascii_lowercase(
                underscored(name)[i],
            ),
        forall|i: int|
            0 <= i < name.len() ==> !py_folder_separator(#[trigger] py_folder_name(name)[i])
                && !capital(py_folder_name(name)[i]),
{
    assert(all_ascii(underscored(name))) by {
        assert forall|i: int| 0 <= i < underscored(name).len() implies is_ascii_char(
            #[trigger] underscored(name)[i],
        ) by {
            assert(is_ascii_char(name[i]));
        }
    }
    assert forall|i: int| 0 <= i < name.len() implies !py_folder_separator(
        #[trigger] py_folder_name(name)[i],
    ) && !capital(py_folder_name(name)[i]) by {
        assert(is_ascii_char(name[i]));
        assert(py_folder_name(name)[i] == ascii_lowercase(underscored(name)[i]));
    }
}

/// Turn a string into a standard folder name.
pub fn format_folder(name: &str) -> (r: String)
    ensures
        r@ == folder_name(name@),
{
    let mut converted = String::new();
    for c in it: name.chars()
        invariant
            it.seq() == name@,
            converted@ == hyphenated(name@.take(it.index() as int)),
    {
        let d = if c == '_' || c == ' ' || c == '.' { '-' } else { c };
        push_char(&mut converted, d);
        assert(name@.take(it.index() + 1) == name@.take(it.index() as int).push(c));
        assert(hyphenated(name@.take(it.index() as int).push(c)) == hyphenated(
            name@.take(it.index() as int),
        ).push(d));
    }
    assert(name@.take(name@.len() as int) == name@);
    to_lower(converted.as_str())
}

/// Turn a string into a standard python folder name.
pub fn format_py_folder(name: &str) -> (r: String)
    ensures
        r@ == py_folder_name(name@),
{
    let mut converted = String::new();
    for c in it: name.chars()
        invariant
            it.seq() == name@,
            converted@ == underscored(name@.take(it.index() as int)),
    {
        let d = if c == '-' || c == ' ' || c == '.' { '_' } else { c };
        push_char(&mut converted, d);
        assert(name@.take(it.index() + 1) == name@.take(it.index() as int).push(c));
        assert(underscored(name@.take(it.index() as int).push(c)) == underscored(
            name@.take(it.index() as int),
        ).push(d));
    }
    assert(name@.take(name@.len() as int) == name@);
    to_lower(converted.as_str())
}

/// The characters at which dot case ends a word.
pub open spec fn word_break(c: char) -> bool {
    c == '_' || c == '.' || c == ' '
}

/// What one character becomes before the words are cut: a word break turns
/// into a hyphen, and an uppercase character gets a hyphen in front of it.
pub open spec fn dashed_char(c: char) -> Seq<char> {
    let kept = if word_break(c) { '-' } else { c };
    if capital(c) { seq!['-', kept] } else { seq![kept] }
}

/// `s` with every character replaced by its `dashed_char`.
pub open spec fn dashed(s: Seq<char>) -> Seq<char>
    decreases s.len(),
{
    if s.len() == 0 {
        Seq::empty()
    } else {
        dashed(s.drop_last()) + dashed_char(s.last())
    }
}

/// The pieces of `s` between the occurrences of `sep`, empty ones included:
/// one more piece than there are separators.
pub open spec fn pieces(s: Seq<char>, sep: char) -> Seq<Seq<char>>
    decreases s.len(),
{
    if s.len() == 0 {
        seq![Seq::empty()]
    } else {
        let before = pieces(s.drop_last(), sep);
        if s.last() == sep {
            before.push(Seq::empty())
        } else {
            before.update(before.len() - 1, before.last().push(s.last()))
        }
    }
}

/// The pieces that are not empty, each in lowercase.
pub open spec fn lowercase_words(parts: Seq<Seq<char>>) -> Seq<Seq<char>> {
    parts.filter(|w: Seq<char>| w.len() > 0).map_values(|w: Seq<char>| lowered(w))
}

/// The words written one after the other with `sep` between two neighbours.
pub open spec fn joined(words: Seq<Seq<char>>, sep: Seq<char>) -> Seq<char>
    decreases words.len(),
{
    if words.len() == 0 {
        Seq::empty()
    } else if words.len() == 1 {
        words[0]
    } else {
        joined(words.drop_last(), sep) + sep + words.last()
    }
}

/// The dot case of `s`: its words in lowercase, joined by dots. A word ends
/// at an underscore, dot, space or hyphen and before an uppercase character.
pub open spec fn dot_case(s: Seq<char>) -> Seq<char> {
    joined(lowercase_words(pieces(dashed(s), '-')), seq!['.'])
}

/// Cutting a text gives at least one piece.
pub proof fn pieces_never_empty(s: Seq<char>, sep: char)
    ensures
        pieces(s, sep).len() >= 1,
    decreases s.len(),
{
    if s.len() > 0 {
        pieces_never_empty(s.drop_last(), sep);
    }
}

proof fn lowercase_words_push(parts: Seq<Seq<char>>, w: Seq<char>)
    ensures
        lowercase_words(parts.push(w)) == if w.len() > 0 {
            lowercase_words(parts).push(lowered(w))
        } else {
            lowercase_words(parts)
        },
{
    let keep = |w: Seq<char>| w.len() > 0;
    reveal_with_fuel(Seq::filter, 2);
    assert(parts.push(w).drop_last() == parts);
    assert(parts.push(w).filter(keep) == if w.len() > 0 {
        parts.filter(keep).push(w)
    } else {
        parts.filter(keep)
    });
    if w.len() > 0 {
        assert(lowercase_words(parts.push(w)) =~= lowercase_words(parts).push(lowered(w)));
    }
}

proof fn joined_push(words: Seq<Seq<char>>, w: Seq<char>, sep: Seq<char>)
    ensures
        joined(words.push(w), sep) == joined(words, sep) + (if words.len() > 0 {
            sep
        } else {
            Seq::empty()
        }) + w,
{
    assert(words.push(w).drop_last() == words);
    if words.len() == 0 {
        assert(Seq::<char>::empty() + Seq::<char>::empty() + w == w);
    }
}

/// Adds the word `chars[from..to]`, in lowercase, to the dot case text in
/// `out`; an empty word adds nothing.
fn add_word(out: &mut String, any: &mut bool, chars: &Vec<char>, from: usize, to: usize)
    requires
        from <= to <= chars.len(),
    ensures
        from == to ==> final(out)@ == old(out)@ && *final(any) == *old(any),
        from < to ==> *final(any) && final(out)@ == old(out)@ + (if *old(any) {
            seq!['.']
        } else {
            Seq::empty()
        }) + lowered(chars@.subrange(from as int, to as int)),
{
    if from < to {
        let word = string_of(chars, from, to);
        let lower = to_lower(word.as_str());
        if *any {
            push_char(out, '.');
        }
        out.append(lower.as_str());
        *any = true;
        assert(old(out)@.push('.') == old(out)@ + seq!['.']);
        assert(old(out)@ + Seq::<char>::empty() == old(out)@);
    }
}

/// Turn a string into a dot separated lowercase name.
pub fn to_dot_case(content: &str) -> (r: String)
    ensures
        r@ == dot_case(content@),
{
    let mut divided: Vec<char> = Vec::new();
    for x in it: content.chars()
        invariant
            it.seq() == content@,
            divided@ == dashed(content@.take(it.index() as int)),
    {
        let ghost before = divided@;
        if is_capital(x) {
            divided.push('-');
        }
        match x {
            '_' | '.' | ' ' => {
                divided.push('-');
            },
            _ => {
                divided.push(x);
            },
        }
        proof {
            let taken = content@.take(it.index() + 1);
            assert(taken.drop_last() == content@.take(it.index() as int));
            assert(taken.last() == x);
            assert(divided@ == before + dashed_char(x));
        }
    }
    assert(content@.take(content@.len() as int) == content@);

    let ghost sep = seq!['.'];
    let mut out = String::new();
    let mut any: bool = false;
    let mut start: usize = 0;
    let mut i: usize = 0;
    while i < divided.len()
        invariant
            start <= i <= divided.len(),
            pieces(divided@.take(i as int), '-').len() >= 1,
            pieces(divided@.take(i as int), '-').last() == divided@.subrange(
                start as int,
                i as int,
            ),
            out@ == joined(lowercase_words(pieces(divided@.take(i as int), '-').drop_last()), sep),
            any == (lowercase_words(pieces(divided@.take(i as int), '-').drop_last()).len() > 0),
            sep == seq!['.'],
        decreases divided.len() - i,
    {
        let ghost parts = pieces(divided@.take(i as int), '-');
        let ghost next = pieces(divided@.take(i + 1), '-');
        proof {
            let taken = divided@.take(i + 1);
            assert(taken.drop_last() == divided@.take(i as int));
            assert(taken.last() == divided@[i as int]);
            pieces_never_empty(taken, '-');
        }
        if divided[i] == '-' {
            add_word(&mut out, &mut any, &divided, start, i);
            proof {
                assert(next == parts.push(Seq::empty()));
                assert(next.drop_last() == parts);
                assert(parts == parts.drop_last().push(parts.last()));
                lowercase_words_push(parts.drop_last(), parts.last());
                joined_push(lowercase_words(parts.drop_last()), lowered(parts.last()), sep);
                assert(divided@.subrange(i + 1, i + 1) == Seq::<char>::empty());
            }
            start = i + 1;
        } else {
            proof {
                assert(next.drop_last() == parts.drop_last());
                assert(divided@.subrange(start as int, i + 1) == divided@.subrange(
                    start as int,
                    i as int,
                ).push(divided@[i as int]));
            }
        }
        i += 1;
    }
    let ghost parts = pieces(divided@, '-');
    assert(divided@.take(divided@.len() as int) == divided@);
    add_word(&mut out, &mut any, &divided, start, i);
    proof {
        assert(parts == parts.drop_last().push(parts.last()));
        lowercase_words_push(parts.drop_last(), parts.last());
        joined_push(lowercase_words(parts.drop_last()), lowered(parts.last()), sep);
    }
    out
}

} // verus!
