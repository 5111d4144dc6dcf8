//! The configuration loader: from the text of a configuration file to the
//! list of bindings it declares.
//!
//! A binding is declared by a line that starts with the marker `bind=`. What
//! follows the marker is a list of fields separated by commas: the modifier,
//! the key, and the action, which may itself hold commas.

use vstd::prelude::*;
use vstd::slice::slice_subrange;
use crate::binding::{bindings_view, Binding, BindingView};

verus! {

/// The marker that a binding's line starts with.
pub open spec fn marker() -> Seq<char> {
    seq!['b', 'i', 'n', 'd', '=']
}

/// The pieces of `text` between occurrences of `sep`, in order. A text
/// without `sep` is one piece; a separator at either end borders an empty
/// piece.
pub open spec fn split(text: Seq<char>, sep: char) -> Seq<Seq<char>>
    decreases text.len(),
{
    if text.len() == 0 {
        seq![Seq::empty()]
    } else {
        let before = split(text.drop_last(), sep);
        if text.last() == sep {
            before.push(Seq::empty())
        } else {
            before.drop_last().push(before.last().push(text.last()))
        }
    }
}

/// The pieces, with `sep` between each two neighbours.
pub open spec fn join(pieces: Seq<Seq<char>>, sep: Seq<char>) -> Seq<char>
    decreases pieces.len(),
{
    if pieces.len() == 0 {
        Seq::empty()
    } else if pieces.len() == 1 {
        pieces[0]
    } else {
        join(pieces.drop_last(), sep) + sep + pieces.last()
    }
}

/// How often `c` stands in `text`.
pub open spec fn occurrences(text: Seq<char>, c: char) -> nat
    decreases text.len(),
{
    if text.len() == 0 {
        0
    } else if text.last() == c {
        occurrences(text.drop_last(), c) + 1
    } else {
        occurrences(text.drop_last(), c)
    }
}

/// A line as it stands before its line feed: a carriage return directly
/// before the line feed belongs to the line ending.
pub open spec fn without_return(piece: Seq<char>) -> Seq<char> {
    if piece.len() > 0 && piece.last() == '\r' {
        piece.drop_last()
    } else {
        piece
    }
}

/// The lines of `text`. A line ends with a line feed, or with a carriage
/// return and a line feed; neither belongs to the line. What follows the
/// last line feed is a line of its own unless it is empty.
pub open spec fn lines(text: Seq<char>) -> Seq<Seq<char>> {
    let pieces = split(text, '\n');
    let ended = Seq::new((pieces.len() - 1) as nat, |i: int| without_return(pieces[i]));
    if pieces.last().len() == 0 {
        ended
    } else {
        ended.push(pieces.last())
    }
}

/// What follows the marker in a line that starts with it; a line that does
/// not start with the marker is left as it is. The marker is taken off
/// once: one that stands again behind it belongs to the first field.
pub open spec fn strip_marker(line: Seq<char>) -> Seq<char> {
    if marker().is_prefix_of(line) {
        line.skip(marker().len() as int)
    } else {
        line
    }
}

/// The combination and the action that `line` declares, if it declares a
/// binding: it starts with the marker and holds at least three fields. The
/// first two fields, joined by `+`, are the combination; the others, joined
/// by spaces, are the action.
pub open spec fn entry(line: Seq<char>) -> Option<(Seq<char>, Seq<char>)> {
    let fields = split(strip_marker(line), ',');
    if marker().is_prefix_of(line) && fields.len() >= 3 {
        Some((fields[0] + seq!['+'] + fields[1], join(fields.skip(2), seq![' '])))
    } else {
        None
    }
}

/// The list `before` with the binding that `line` declares, if it declares
/// one, added at its end and numbered by its place in the list.
pub open spec fn with_line(before: Seq<BindingView>, line: Seq<char>) -> Seq<BindingView> {
    match entry(line) {
        Some((combo, action)) => before.push(BindingView { combo, action, idx: before.len() }),
        None => before,
    }
}

/// The bindings that `lines` declare, in the order of their lines.
pub open spec fn entries(lines: Seq<Seq<char>>) -> Seq<BindingView>
    decreases lines.len(),
{
    if lines.len() == 0 {
        Seq::empty()
    } else {
        with_line(entries(lines.drop_last()), lines.last())
    }
}

/// The bindings that a configuration text declares.
pub open spec fn parse(text: Seq<char>) -> Seq<BindingView> {
    entries(lines(text))
}

/// The path of the configuration file, with `~` for the home directory.
pub open spec fn default_path() -> Seq<char> {
    "~/.config/mango/config.conf"@
}

/// Whether `path` starts with a `~` that stands for the home directory: one
/// that ends the path or is followed by a path separator.
pub open spec fn home_led(path: Seq<char>) -> bool {
    &&& path.len() >= 1
    &&& path[0] == '~'
    &&& (path.len() == 1 || path[1] == '/' || path[1] == '\\')
}

/// `String::push` appends the character to the end of the string.
pub assume_specification[ String::push ](text: &mut String, ch: char)
    ensures
        final(text)@ == old(text)@.push(ch),
;

/// The texts of a list of character vectors, in order.
spec fn texts(pieces: Seq<Vec<char>>) -> Seq<Seq<char>> {
    Seq::new(pieces.len(), |i: int| pieces[i]@)
}

/// The characters of `text`, in order.
fn chars_of(text: &str) -> (chars: Vec<char>)
    ensures
        chars@ == text@,
{
    let mut chars: Vec<char> = Vec::new();
    for c in it: text.chars()
        invariant
            chars@ == it.seq().take(it.index() as int),
            it.seq() == text@,
    {
        chars.push(c);
    }
    chars
}

/// Splits `text` at every occurrence of `sep`.
fn split_chars(text: &[char], sep: char) -> (pieces: Vec<Vec<char>>)
    ensures
        texts(pieces@) == split(text@, sep),
{
    let mut pieces: Vec<Vec<char>> = Vec::new();
    let mut current: Vec<char> = Vec::new();
    let mut i: usize = 0;
    while i < text.len()
        invariant
            i <= text.len(),
            texts(pieces@).push(current@) == split(text@.take(i as int), sep),
        decreases text.len() - i,
    {
        let ghost done = texts(pieces@).push(current@);
        assert(text@.take(i + 1).drop_last() == text@.take(i as int));
        if text[i] == sep {
            pieces.push(current);
            current = Vec::new();
            assert(texts(pieces@) == done);
        } else {
            current.push(text[i]);
            assert(texts(pieces@).push(current@) == done.drop_last().push(
                done.last().push(text@[i as int]),
            ));
        }
        i += 1;
    }
    assert(text@.take(i as int) == text@);
    let ghost done = texts(pieces@).push(current@);
    pieces.push(current);
    assert(texts(pieces@) == done);
    pieces
}

/// Appends the characters of `piece` to `text`.
fn push_chars(text: &mut String, piece: &Vec<char>)
    ensures
        final(text)@ == old(text)@ + piece@,
{
    let mut i: usize = 0;
    while i < piece.len()
        invariant
            i <= piece.len(),
            text@ == old(text)@ + piece@.take(i as int),
        decreases piece.len() - i,
    {
        assert(piece@.take(i + 1) == piece@.take(i as int).push(piece@[i as int]));
        text.push(piece[i]);
        i += 1;
    }
    assert(piece@.take(i as int) == piece@);
}

/// Whether `line` starts with the marker.
fn starts_with_marker(line: &[char]) -> (starts: bool)
    ensures
        starts == marker().is_prefix_of(line@),
{
    let starts = line.len() >= 5
        && line[0] == 'b'
        && line[1] == 'i'
        && line[2] == 'n'
        && line[3] == 'd'
        && line[4] == '=';
    proof {
        if line.len() >= 5 {
            let head = line@.subrange(0, 5);
            if starts {
                assert(head =~= marker());
            } else {
                assert(head[0] == line@[0] && head[1] == line@[1] && head[2] == line@[2]
                    && head[3] == line@[3] && head[4] == line@[4]);
            }
        }
    }
    starts
}

/// Takes the marker from the start of `line`, once, if it stands there.
fn after_marker(line: &[char]) -> (rest: &[char])
    ensures
        rest@ == strip_marker(line@),
{
    if starts_with_marker(line) {
        slice_subrange(line, 5, line.len())
    } else {
        line
    }
}

/// Reads the binding that `line` declares, if it declares one.
fn read_entry(line: &[char]) -> (found: Option<(String, String)>)
    ensures
        match found {
            Some((combo, action)) => entry(line@) == Some((combo@, action@)),
            None => entry(line@) is None,
        },
{
    if !starts_with_marker(line) {
        return None;
    }
    let fields = split_chars(after_marker(line), ',');
    if fields.len() < 3 {
        return None;
    }
    let ghost all = texts(fields@);
    let mut combo = String::new();
    push_chars(&mut combo, &fields[0]);
    combo.push('+');
    push_chars(&mut combo, &fields[1]);
    assert(combo@ == all[0] + seq!['+'] + all[1]);
    let mut action = String::new();
    push_chars(&mut action, &fields[2]);
    assert(all.subrange(2, 3).len() == 1);
    assert(action@ == all.subrange(2, 3)[0]);
    let mut i: usize = 3;
    while i < fields.len()
        invariant
            3 <= i <= fields.len(),
            all == texts(fields@),
            action@ == join(all.subrange(2, i as int), seq![' ']),
        decreases fields.len() - i,
    {
        assert(all.subrange(2, i + 1).drop_last() == all.subrange(2, i as int));
        action.push(' ');
        push_chars(&mut action, &fields[i]);
        i += 1;
    }
    assert(all.subrange(2, i as int) == all.skip(2));
    Some((combo, action))
}

/// Adds the binding that `line` declares, if it declares one, to the end of
/// `bindings`.
fn add_line(bindings: &mut Vec<Binding>, line: &[char])
    ensures
        bindings_view(final(bindings)@) == with_line(bindings_view(old(bindings)@), line@),
{
    let ghost before = bindings_view(bindings@);
    match read_entry(line) {
        Some((combo, action)) => {
            let idx = bindings.len();
            bindings.push(Binding { combo, action, idx });
            assert(bindings_view(bindings@) == before.push(
                BindingView { combo: combo@, action: action@, idx: before.len() },
            ));
        },
        None => {},
    }
}

/// Takes a carriage return from the end of `piece`, if one stands there.
fn trim_return(piece: &[char]) -> (line: &[char])
    ensures
        line@ == without_return(piece@),
{
    let len = piece.len();
    if len > 0 && piece[len - 1] == '\r' {
        slice_subrange(piece, 0, len - 1)
    } else {
        piece
    }
}

/// A split text has at least one piece.
proof fn split_is_not_empty(text: Seq<char>, sep: char)
    ensures
        split(text, sep).len() >= 1,
    decreases text.len(),
{
    if text.len() > 0 {
        split_is_not_empty(text.drop_last(), sep);
    }
}

/// Reads the bindings that a configuration text declares, in the order of
/// their lines.
pub fn parse_bindings(contents: &str) -> (bindings: Vec<Binding>)
    ensures
        bindings_view(bindings@) == parse(contents@),
{
    let chars = chars_of(contents);
    let pieces = split_chars(chars.as_slice(), '\n');
    proof {
        split_is_not_empty(contents@, '\n');
    }
    let ghost all = lines(contents@);
    let last = pieces.len() - 1;
    let mut bindings: Vec<Binding> = Vec::new();
    assert(bindings_view(bindings@) == entries(all.take(0)));
    let mut i: usize = 0;
    while i < last
        invariant
            i <= last == pieces.len() - 1,
            texts(pieces@) == split(contents@, '\n'),
            all == lines(contents@),
            bindings_view(bindings@) == entries(all.take(i as int)),
        decreases last - i,
    {
        assert(all.take(i + 1).drop_last() == all.take(i as int));
        assert(all[i as int] == without_return(pieces[i as int]@));
        add_line(&mut bindings, trim_return(pieces[i].as_slice()));
        i += 1;
    }
    if pieces[last].len() > 0 {
        assert(all.drop_last() == all.take(last as int));
        add_line(&mut bindings, pieces[last].as_slice());
    } else {
        assert(all.take(last as int) == all);
    }
    bindings
}

/// `shellexpand::tilde` puts the user's home directory in the place of a
/// leading `~`, where the path starts with one that stands for it and the
/// system knows a home directory. Every other path comes back as it is.
/// Which directory it is depends on the user and the system, so the
/// contract says only what holds of each: the rest of the path follows it
/// unchanged.
#[verifier::external_body]
fn expand_home(path: &str) -> (expanded: String)
    ensures
        expanded@ == path@ || (home_led(path@) && path@.skip(1).is_suffix_of(expanded@)),
{
    shellexpand::tilde(path).into_owned()
}

/// The path of the configuration file: `.config/mango/config.conf` under
/// the user's home directory, or under `~` where the system knows no home
/// directory.
pub fn config_path() -> (path: String)
    ensures
        path@ == default_path() || default_path().skip(1).is_suffix_of(path@),
{
    expand_home("~/.config/mango/config.conf")
}

} // verus!
