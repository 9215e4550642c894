//! Rules on file names: the stem of an input's name, the name of the decoded
//! file, and the replacement of characters that file systems refuse.

use vstd::prelude::*;
use vstd::string::*;

verus! {

/// `String::push` appends one character.
pub assume_specification[ String::push ](text: &mut String, c: char)
    ensures
        final(text)@ == old(text)@.push(c),
;

/// The index of the last `.` in `name`, or -1 where it holds none.
pub open spec fn last_dot(name: Seq<char>) -> int
    decreases name.len(),
{
    if name.len() == 0 {
        -1
    } else if name.last() == '.' {
        name.len() - 1
    } else {
        last_dot(name.drop_last())
    }
}

/// The last `.` lies inside the name, and a `.` stands there.
pub proof fn lemma_last_dot_in_range(name: Seq<char>)
    ensures
        -1 <= last_dot(name) < name.len(),
        last_dot(name) >= 0 ==> name[last_dot(name)] == '.',
    decreases name.len(),
{
    if name.len() > 0 && name.last() != '.' {
        lemma_last_dot_in_range(name.drop_last());
    }
}

/// Whether `name` can be the name of a file: it is not empty and is neither
/// of the two directory links `.` and `..`.
pub open spec fn is_file_name(name: Seq<char>) -> bool {
    name.len() > 0 && name != seq!['.'] && name != seq!['.', '.']
}

/// A file name without its extension: what stands before the last `.`, or
/// the whole name where it has no `.` but at its very start.
pub open spec fn stem_of(name: Seq<char>) -> Seq<char> {
    if last_dot(name) <= 0 {
        name
    } else {
        name.take(last_dot(name))
    }
}

/// A file name's extension: what follows the last `.`, where the name has one
/// that is not its first character.
pub open spec fn extension_of(name: Seq<char>) -> Option<Seq<char>> {
    if last_dot(name) <= 0 {
        None
    } else {
        Some(name.skip(last_dot(name) + 1))
    }
}

/// Finds the last `.` of `name`, counted in characters, and the length of `name`.
fn find_last_dot(name: &str) -> (found: (Option<usize>, usize))
    ensures
        found.1 == name@.len(),
        match found.0 {
            Some(i) => i == last_dot(name@),
            None => last_dot(name@) == -1,
        },
{
    let length = name.unicode_len();
    let mut last: Option<usize> = None;
    let mut count: usize = 0;
    for c in it: name.chars()
        invariant
            count == it.index(),
            it.seq() == name@,
            length == name@.len(),
            match last {
                Some(i) => i == last_dot(name@.take(count as int)),
                None => last_dot(name@.take(count as int)) == -1,
            },
    {
        proof {
            assert(name@.take(count + 1).drop_last() == name@.take(count as int));
        }
        if c == '.' {
            last = Some(count);
        }
        count = count + 1;
    }
    proof {
        assert(name@.take(name@.len() as int) == name@);
    }
    (last, length)
}

/// The stem of a file's name: the name without its extension.
pub fn file_stem(name: &str) -> (stem: String)
    ensures
        stem@ == stem_of(name@),
{
    let (last, _length) = find_last_dot(name);
    proof {
        lemma_last_dot_in_range(name@);
    }
    match last {
        Some(i) => {
            if i == 0 {
                String::from_str(name)
            } else {
                String::from_str(name.substring_char(0, i))
            }
        },
        None => String::from_str(name),
    }
}

/// Whether a file's name ends in the extension `ncm`, the mark of a container.
pub fn has_ncm_extension(name: &str) -> (yes: bool)
    ensures
        yes == (extension_of(name@) == Some(seq!['n', 'c', 'm'])),
{
    let (last, length) = find_last_dot(name);
    proof {
        lemma_last_dot_in_range(name@);
    }
    match last {
        Some(i) => {
            if i == 0 || length - i != 4 {
                proof {
                    assert(seq!['n', 'c', 'm'].len() == 3);
                }
                false
            } else {
                let tail = name.substring_char(i + 1, length);
                let yes = tail.get_char(0) == 'n' && tail.get_char(1) == 'c' && tail.get_char(2)
                    == 'm';
                proof {
                    let ncm = seq!['n', 'c', 'm'];
                    assert(tail@ == name@.skip(i + 1));
                    assert(ncm[0] == 'n' && ncm[1] == 'c' && ncm[2] == 'm');
                    if yes {
                        assert(tail@ =~= ncm);
                    }
                }
                yes
            }
        },
        None => false,
    }
}

/// The name of the decoded file: the container's stem, a dot, and the audio
/// format that the metadata names.
pub open spec fn output_name(stem: Seq<char>, format: Seq<char>) -> Seq<char> {
    stem + seq!['.'] + format
}

/// Builds the name of the decoded file from the container's stem and the format.
pub fn output_filename(stem: &str, format: &str) -> (name: String)
    ensures
        name@ == output_name(stem@, format@),
{
    let mut name = String::from_str(stem);
    name.push('.');
    name.append(format);
    name
}

/// The substitute for one character: each of the nine characters that file
/// systems refuse gives a harmless look-alike, every other character itself.
pub open spec fn safe_char(c: char) -> char {
    if c == '\\' || c == '/' || c == '|' {
        '_'
    } else if c == '*' {
        '＊'
    } else if c == '?' {
        '？'
    } else if c == '"' {
        '＂'
    } else if c == ':' {
        '：'
    } else if c == '<' {
        '⟨'
    } else if c == '>' {
        '⟩'
    } else {
        c
    }
}

/// A file name with every refused character replaced by its substitute.
pub open spec fn standardized(name: Seq<char>) -> Seq<char> {
    Seq::new(name.len(), |i: int| safe_char(name[i]))
}

/// Replaces one character by its substitute.
pub fn replace_unsafe_char(c: char) -> (safe: char)
    ensures
        safe == safe_char(c),
{
    if c == '\\' || c == '/' || c == '|' {
        '_'
    } else if c == '*' {
        '＊'
    } else if c == '?' {
        '？'
    } else if c == '"' {
        '＂'
    } else if c == ':' {
        '：'
    } else if c == '<' {
        '⟨'
    } else if c == '>' {
        '⟩'
    } else {
        c
    }
}

/// Makes a file name safe to create: `\\`, `/` and `|` become `_`, and `*`,
/// `?`, `"`, `:`, `<`, `>` become `＊`, `？`, `＂`, `：`, `⟨`, `⟩`.
pub fn standardize_filename(old_filename: String) -> (new_filename: String)
    ensures
        new_filename@ == standardized(old_filename@),
{
    let mut new_filename = String::new();
    for c in it: old_filename.as_str().chars()
        invariant
            it.seq() == old_filename@,
            new_filename@ == standardized(old_filename@).take(it.index() as int),
    {
        new_filename.push(replace_unsafe_char(c));
    }
    new_filename
}

/// Standardizing a file name a second time changes nothing: no substitute is
/// itself a refused character.
pub proof fn lemma_standardize_idempotent(name: Seq<char>)
    ensures
        standardized(standardized(name)) == standardized(name),
{
    assert forall|c: char| safe_char(safe_char(c)) == #[trigger] safe_char(c) by {}
    assert(standardized(standardized(name)) =~= standardized(name));
}

} // verus!
