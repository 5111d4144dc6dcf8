//! What holds of the loader on every text, and of the viewer's state
//! machine on every state and every sequence of events.

use vstd::prelude::*;
use crate::config::{
    entries, entry, join, lines, marker, occurrences, parse, split, strip_marker,
};
use crate::input::{Event, KeyCode, KEY_DOWN, KEY_QUIT, KEY_UP};
use crate::screen::line_span;
use crate::viewer::AppView;

verus! {

/// An event changes neither the entries nor a valid state's validity: the
/// scroll offset and the highlighted index stay one index of an entry.
pub proof fn event_keeps_valid(state: AppView, event: Event)
    requires
        state.valid(),
    ensures
        state.on_event(event).valid(),
        state.on_event(event).bindings == state.bindings,
{
}

/// Whatever events arrive, and however many, the scroll offset of a viewer
/// over N entries stays within 0 and N - 1, and the entries stay as they are.
pub proof fn scroll_stays_in_bounds(state: AppView, events: Seq<Event>)
    requires
        state.valid(),
    ensures
        state.on_events(events).valid(),
        state.on_events(events).bindings == state.bindings,
        0 <= state.on_events(events).scroll <= state.bindings.len() - 1,
    decreases events.len(),
{
    if events.len() > 0 {
        event_keeps_valid(state, events[0]);
        scroll_stays_in_bounds(state.on_event(events[0]), events.skip(1));
    }
}

/// Whatever events arrive, the highlighted index of a viewer over N entries
/// stays within 0 and N - 1, and it stays equal to the scroll offset.
pub proof fn highlight_stays_in_bounds(state: AppView, events: Seq<Event>)
    requires
        state.valid(),
    ensures
        0 <= state.on_events(events).highlighted <= state.bindings.len() - 1,
        state.on_events(events).highlighted == state.on_events(events).scroll,
{
    scroll_stays_in_bounds(state, events);
}

/// A move up with the first entry highlighted changes nothing.
pub proof fn move_up_at_first_is_noop(state: AppView)
    requires
        state.valid(),
        state.highlighted == 0,
    ensures
        state.on_key(KeyCode::Char(KEY_UP)) == state,
{
}

/// A move down with the last entry highlighted changes nothing.
pub proof fn move_down_at_last_is_noop(state: AppView)
    requires
        state.valid(),
        state.highlighted == state.bindings.len() - 1,
    ensures
        state.on_key(KeyCode::Char(KEY_DOWN)) == state,
{
}

/// The frame of a valid state is offset by the scroll offset itself: its
/// n-th visible line is the line of the entry n places below the offset,
/// and the visible lines end with the last entry.
pub proof fn visible_lines_start_at_scroll(state: AppView)
    requires
        state.valid(),
    ensures
        state.screen().scroll == state.scroll,
        state.screen().visible().len() == state.bindings.len() - state.scroll,
        forall|n: int|
            0 <= n < state.bindings.len() - state.scroll ==> #[trigger] state.screen().visible()[n]
                == line_span(state.bindings[n + state.scroll], state.highlighted),
{
}

/// In every state the quit key ends the viewer and changes nothing else.
pub proof fn quit_ends(state: AppView)
    ensures
        state.on_key(KeyCode::Char(KEY_QUIT)).exit,
        state.on_key(KeyCode::Char(KEY_QUIT)) == (AppView { exit: true, ..state }),
{
}

/// No event brings an ended viewer back.
pub proof fn exit_is_final(state: AppView, events: Seq<Event>)
    requires
        state.exit,
    ensures
        state.on_events(events).exit,
    decreases events.len(),
{
    if events.len() > 0 {
        exit_is_final(state.on_event(events[0]), events.skip(1));
    }
}

/// The control loop takes a prefix of the events it is fed, acts on each of
/// them in order, and stops only when the viewer has ended or the events
/// have run out.
pub proof fn run_takes_prefix(state: AppView, events: Seq<Event>)
    ensures
        state.taken(events) <= events.len(),
        state.run(events) == state.on_events(events.take(state.taken(events) as int)),
        state.run(events).exit || state.taken(events) == events.len(),
    decreases events.len(),
{
    if state.exit || events.len() == 0 {
        assert(events.take(0).len() == 0);
    } else {
        let next = state.on_event(events[0]);
        let rest = events.skip(1);
        run_takes_prefix(next, rest);
        let n = next.taken(rest) as int;
        assert(events.take(n + 1).skip(1) == rest.take(n));
    }
}

/// An ended viewer takes no event: the control loop neither shows a frame
/// nor reads.
pub proof fn ended_takes_nothing(state: AppView, events: Seq<Event>)
    requires
        state.exit,
    ensures
        state.taken(events) == 0,
        state.run(events) == state,
{
}

/// The first press of the quit key is the last event that the control loop
/// takes: after it the viewer has ended, and no later event is read.
pub proof fn run_stops_at_quit(state: AppView, events: Seq<Event>, at: int)
    requires
        !state.exit,
        0 <= at < events.len(),
        events[at].is_quit(),
        forall|i: int| 0 <= i < at ==> !(#[trigger] events[i]).is_quit(),
    ensures
        state.taken(events) == at + 1,
        state.run(events).exit,
        state.run(events) == state.on_events(events.take(at + 1)),
    decreases events.len(),
{
    run_takes_prefix(state, events);
    if at > 0 {
        let next = state.on_event(events[0]);
        let rest = events.skip(1);
        assert(!events[0].is_quit());
        assert(!next.exit);
        assert(rest[at - 1] == events[at]);
        assert forall|i: int| 0 <= i < at - 1 implies !(#[trigger] rest[i]).is_quit() by {
            assert(rest[i] == events[i + 1]);
        }
        run_stops_at_quit(next, rest, at - 1);
    } else {
        ended_takes_nothing(state.on_event(events[0]), events.skip(1));
    }
}

/// Splitting loses nothing: the pieces, joined by the separator again, are
/// the text.
pub proof fn split_joins_back(text: Seq<char>, sep: char)
    ensures
        join(split(text, sep), seq![sep]) == text,
    decreases text.len(),
{
    split_counts_separators(text, sep);
    if text.len() > 0 {
        let before = split(text.drop_last(), sep);
        split_joins_back(text.drop_last(), sep);
        split_counts_separators(text.drop_last(), sep);
        if text.last() == sep {
            assert(before.push(Seq::empty()).drop_last() == before);
            assert(text.drop_last() + seq![sep] + Seq::<char>::empty() == text);
        } else {
            let grown = before.last().push(text.last());
            if before.len() > 1 {
                let kept = before.drop_last();
                assert(kept.push(grown).drop_last() == kept);
                assert(join(kept, seq![sep]) + seq![sep] + grown == (join(kept, seq![sep])
                    + seq![sep] + before.last()).push(text.last()));
            }
            assert(text.drop_last().push(text.last()) == text);
        }
    }
}

/// A text with n separators has n + 1 pieces.
pub proof fn split_counts_separators(text: Seq<char>, sep: char)
    ensures
        split(text, sep).len() == occurrences(text, sep) + 1,
    decreases text.len(),
{
    if text.len() > 0 {
        split_counts_separators(text.drop_last(), sep);
    }
}

/// No piece holds the separator.
pub proof fn split_pieces_hold_no_separator(text: Seq<char>, sep: char)
    ensures
        forall|i: int|
            0 <= i < split(text, sep).len() ==> !(#[trigger] split(text, sep)[i]).contains(sep),
    decreases text.len(),
{
    split_counts_separators(text, sep);
    if text.len() > 0 {
        let before = split(text.drop_last(), sep);
        split_pieces_hold_no_separator(text.drop_last(), sep);
        split_counts_separators(text.drop_last(), sep);
        assert forall|i: int| 0 <= i < split(text, sep).len() implies !(#[trigger] split(
            text,
            sep,
        )[i]).contains(sep) by {
            if i < before.len() - 1 {
                assert(split(text, sep)[i] == before[i]);
            } else if text.last() == sep && i == before.len() - 1 {
                assert(split(text, sep)[i] == before[i]);
            } else if text.last() != sep {
                assert(!before.last().contains(sep));
            }
        }
    }
}

/// The marker is taken off once: what follows it in the line is what is
/// split into fields, also where that starts with the marker again.
pub proof fn marker_is_stripped_once(rest: Seq<char>)
    ensures
        marker().is_prefix_of(marker() + rest),
        strip_marker(marker() + rest) == rest,
{
    let line = marker() + rest;
    assert(line.subrange(0, marker().len() as int) == marker());
    assert(line.skip(marker().len() as int) == rest);
}

/// A line declares a binding exactly when it starts with the marker and
/// what follows the marker holds at least two commas; a marked line with
/// fewer fields declares nothing.
pub proof fn entry_needs_three_fields(line: Seq<char>)
    ensures
        entry(line) is Some <==> marker().is_prefix_of(line) && occurrences(
            strip_marker(line),
            ',',
        ) >= 2,
{
    split_counts_separators(strip_marker(line), ',');
}

/// The bindings come out numbered by their place, and there are no more of
/// them than lines.
pub proof fn entries_are_numbered(lines: Seq<Seq<char>>)
    ensures
        entries(lines).len() <= lines.len(),
        forall|i: int| 0 <= i < entries(lines).len() ==> (#[trigger] entries(lines)[i]).idx == i,
    decreases lines.len(),
{
    if lines.len() > 0 {
        entries_are_numbered(lines.drop_last());
    }
}

/// Lines of which none starts with the marker declare no binding.
pub proof fn unmarked_lines_declare_nothing(lines: Seq<Seq<char>>)
    requires
        forall|i: int| 0 <= i < lines.len() ==> !marker().is_prefix_of(#[trigger] lines[i]),
    ensures
        entries(lines).len() == 0,
    decreases lines.len(),
{
    if lines.len() > 0 {
        let rest = lines.drop_last();
        assert forall|i: int| 0 <= i < rest.len() implies !marker().is_prefix_of(
            #[trigger] rest[i],
        ) by {
            assert(rest[i] == lines[i]);
        }
        unmarked_lines_declare_nothing(rest);
        assert(!marker().is_prefix_of(lines[lines.len() - 1]));
    }
}

/// A text of which no line starts with the marker declares no binding, so
/// there is no viewer over it.
pub proof fn text_without_marker_declares_nothing(text: Seq<char>)
    requires
        forall|i: int|
            0 <= i < lines(text).len() ==> !marker().is_prefix_of(#[trigger] lines(text)[i]),
    ensures
        parse(text).len() == 0,
{
    unmarked_lines_declare_nothing(lines(text));
}

} // verus!
