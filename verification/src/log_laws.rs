//! What a user is shown of the logs, and which of them are deleted.

use vstd::prelude::*;

use crate::log_prune::{
    deleted, expired, is_expired, LogFile, Span, LOG_RETENTION_SECS, PRUNE_INTERVAL_SECS,
};
use crate::logs::{
    all_lines, are_entries_of, ascii_upper, by_time, cut_time, entry_of, first_word, inserted,
    is_entry_of, is_hms, is_shown_for, is_time_of, line_parts, lines_of, message_of, newest,
    rfc3339_instant, shown_lines_are_the_newest, target_end, text_order_is_total, time_of_day,
    upper, upper_text, word_len, EntryView, LogEntry,
};
use crate::text::{any_of, text_le, trim_start, trimmed};
use crate::text_laws::{
    is_blank, is_white, separator_parts_the_pieces, text_is_cut_at_the_first,
    text_without_separator_is_one_piece, worth,
};

verus! {

// ---------------------------------------------------------------------------
// Times
// ---------------------------------------------------------------------------

/// Whether a text is the time of day, such as "16:40:22".
pub open spec fn tells_time(s: Seq<char>, hour: int, minute: int, second: int) -> bool {
    &&& s.len() == 8
    &&& s[2] == ':' && s[5] == ':'
    &&& worth(s[0]) < 10 && worth(s[1]) < 10 && 10 * worth(s[0]) + worth(s[1]) == hour
    &&& worth(s[3]) < 10 && worth(s[4]) < 10 && 10 * worth(s[3]) + worth(s[4]) == minute
    &&& worth(s[6]) < 10 && worth(s[7]) < 10 && 10 * worth(s[6]) + worth(s[7]) == second
}

/// A moment is shown by the clock on the wall; a leap second counts on top of the second that
/// it follows.
pub proof fn moment_is_shown_by_the_clock(
    secs: int,
    nanos: int,
    offset: int,
    day: int,
    hour: int,
    minute: int,
    second: int,
)
    requires
        secs + offset == 86_400 * day + 3600 * hour + 60 * minute + second,
        0 <= hour < 24,
        0 <= minute < 60,
        0 <= second < 60,
        0 <= nanos < 2_000_000_000,
    ensures
        tells_time(
            time_of_day(secs, nanos, offset),
            hour,
            minute,
            if nanos < 1_000_000_000 {
                second
            } else {
                second + 1
            },
        ),
{
    let t = (secs + offset) % 86_400;
    assert(t == 3600 * hour + 60 * minute + second);
    assert(t / 3600 == hour);
    assert(t / 60 % 60 == minute);
    assert(t % 60 == second);
    let s = time_of_day(secs, nanos, offset);
    let z = second + nanos / 1_000_000_000;
    assert(worth(s[0]) == hour / 10 && worth(s[1]) == hour % 10);
    assert(worth(s[3]) == minute / 10 && worth(s[4]) == minute % 10);
    assert(worth(s[6]) == z / 10 && worth(s[7]) == z % 10);
}

/// What is no moment is shown as what stands after the first 'T' and before the point after
/// that, as far as there are any.
pub proof fn other_times_are_cut_out(a: Seq<char>, b: Seq<char>, c: Seq<char>)
    requires
        !a.contains('T'),
        !b.contains('.'),
    ensures
        cut_time(a.push('T') + (b.push('.') + c)) == b,
        cut_time(a.push('T') + b) == b,
        cut_time(a) == a,
{
    text_is_cut_at_the_first(a, 'T', b.push('.') + c);
    text_is_cut_at_the_first(a, 'T', b);
    text_is_cut_at_the_first(b, '.', c);
}

/// A moment is shown with the machine's offset, which is less than a day; what is no moment
/// is cut out.
pub proof fn time_is_shown_as_a_moment_or_cut_out(shown: Seq<char>, raw: Seq<char>)
    ensures
        match rfc3339_instant(raw) {
            None => is_shown_for(shown, raw) <==> shown == cut_time(raw),
            Some(m) => is_shown_for(shown, raw) <==> exists|offset: int|
                -86_400 < offset < 86_400 && shown == #[trigger] time_of_day(
                    m.0 as int,
                    m.1 as int,
                    offset,
                ) && is_hms(shown),
        },
{
    match rfc3339_instant(raw) {
        None => {},
        Some(m) => {
            if is_shown_for(shown, raw) {
                assert(is_time_of(shown, m.0, m.1));
            }
        },
    }
}

// ---------------------------------------------------------------------------
// Lines
// ---------------------------------------------------------------------------

/// Whether there is no white space in a text.
pub open spec fn is_word(s: Seq<char>) -> bool {
    forall|i: int| 0 <= i < s.len() ==> !is_white(#[trigger] s[i])
}

proof fn lemma_word_len(w: Seq<char>, rest: Seq<char>)
    requires
        is_word(w),
        rest.len() > 0 ==> is_white(rest[0]),
    ensures
        word_len(w + rest) == w.len(),
    decreases w.len(),
{
    let s = w + rest;
    if w.len() > 0 {
        assert(s[0] == w[0]);
        assert(s.skip(1) =~= w.skip(1) + rest);
        assert forall|i: int| 0 <= i < w.skip(1).len() implies !is_white(#[trigger] w.skip(1)[i]) by {
            assert(w.skip(1)[i] == w[i + 1]);
        }
        lemma_word_len(w.skip(1), rest);
    } else {
        assert(s =~= rest);
    }
}

proof fn lemma_gap(gap: Seq<char>, rest: Seq<char>)
    requires
        is_blank(gap),
        rest.len() > 0 ==> !is_white(rest[0]),
    ensures
        trim_start(gap + rest) == rest,
    decreases gap.len(),
{
    let s = gap + rest;
    if gap.len() > 0 {
        assert(is_white(gap[0]));
        assert(s[0] == gap[0]);
        assert(s.skip(1) =~= gap.skip(1) + rest);
        assert forall|i: int| 0 <= i < gap.skip(1).len() implies is_white(
            #[trigger] gap.skip(1)[i],
        ) by {
            assert(gap.skip(1)[i] == gap[i + 1]);
        }
        lemma_gap(gap.skip(1), rest);
    } else {
        assert(s =~= rest);
    }
}

/// The first word ends at white space, and what follows begins after all of it.
pub proof fn word_ends_at_white_space(w: Seq<char>, gap: Seq<char>, rest: Seq<char>)
    requires
        is_word(w),
        is_blank(gap),
        rest.len() > 0 ==> gap.len() > 0 && !is_white(rest[0]),
    ensures
        first_word(w + gap + rest) == (w, rest),
{
    let s = w + gap + rest;
    let tail = gap + rest;
    assert(s =~= w + tail);
    if tail.len() > 0 {
        if gap.len() > 0 {
            assert(is_white(gap[0]));
            assert(tail[0] == gap[0]);
        }
    }
    lemma_word_len(w, tail);
    assert(s.take(w.len() as int) =~= w);
    assert(s.skip(w.len() as int) =~= tail);
    lemma_gap(gap, rest);
}

/// A line is a time, a level and the rest, with white space between them.
pub proof fn line_is_time_level_and_rest(
    time: Seq<char>,
    gap: Seq<char>,
    level: Seq<char>,
    gap2: Seq<char>,
    rest: Seq<char>,
)
    requires
        is_word(time),
        is_word(level),
        level.len() > 0,
        is_blank(gap),
        gap.len() > 0,
        is_blank(gap2),
        gap2.len() > 0,
        rest.len() > 0,
        !is_white(rest[0]),
    ensures
        line_parts(time + gap + (level + gap2 + rest)) == (time, level, rest),
{
    let more = level + gap2 + rest;
    assert(!is_white(level[0]));
    assert(more[0] == level[0]);
    word_ends_at_white_space(time, gap, more);
    word_ends_at_white_space(level, gap2, rest);
}

/// A line that lacks a message is shown as a whole.
pub proof fn short_line_is_its_own_message(time: Seq<char>, gap: Seq<char>, level: Seq<char>)
    requires
        is_word(time),
        is_word(level),
        is_blank(gap),
        level.len() > 0 ==> gap.len() > 0,
    ensures
        line_parts(time + gap + level) == (time, level, time + gap + level),
{
    let e = Seq::<char>::empty();
    if level.len() > 0 {
        assert(!is_white(level[0]));
    }
    word_ends_at_white_space(time, gap, level);
    word_ends_at_white_space(level, e, e);
    assert(level + e + e =~= level);
}

/// Whether a colon stands alone at a place.
pub open spec fn is_single_colon(s: Seq<char>, i: int) -> bool {
    &&& 0 <= i < s.len()
    &&& s[i] == ':'
    &&& i + 1 < s.len() ==> s[i + 1] != ':'
    &&& i > 0 ==> s[i - 1] != ':'
}

proof fn lemma_target_end(s: Seq<char>, i: int)
    requires
        0 <= i <= s.len(),
    ensures
        i <= target_end(s, i) <= s.len(),
        target_end(s, i) < s.len() ==> is_single_colon(s, target_end(s, i)),
        forall|k: int| i <= k < target_end(s, i) ==> !#[trigger] is_single_colon(s, k),
    decreases s.len() - i,
{
    if i < s.len() && !is_single_colon(s, i) {
        lemma_target_end(s, i + 1);
    }
}

/// The message begins after the first colon that stands alone, without white space around
/// it; where there is no such colon, it is the whole.
pub proof fn message_follows_the_first_single_colon(s: Seq<char>, i: int)
    ensures
        is_single_colon(s, i) && (forall|k: int| 0 <= k < i ==> !#[trigger] is_single_colon(s, k))
            ==> message_of(s) == trimmed(s.skip(i + 1)),
        (forall|k: int| !#[trigger] is_single_colon(s, k)) ==> message_of(s) == s,
{
    lemma_target_end(s, 0);
    let t = target_end(s, 0);
    if is_single_colon(s, i) && (forall|k: int| 0 <= k < i ==> !#[trigger] is_single_colon(s, k)) {
        if t < i {
            assert(is_single_colon(s, t));
        } else if i < t {
            assert(!is_single_colon(s, i));
        }
    }
    if forall|k: int| !#[trigger] is_single_colon(s, k) {
        if t < s.len() {
            assert(is_single_colon(s, t));
        }
    }
}

/// Letters of ASCII are put in upper case one by one, everything else is left.
pub proof fn ascii_is_put_in_upper_case(s: Seq<char>, i: int)
    requires
        forall|k: int| 0 <= k < s.len() ==> (#[trigger] s[k] as int) < 128,
        0 <= i < s.len(),
    ensures
        upper_text(s).len() == s.len(),
        'a' <= s[i] <= 'z' ==> upper_text(s)[i] as int == s[i] as int - 32,
        !('a' <= s[i] <= 'z') ==> upper_text(s)[i] == s[i],
{
    assert(upper_text(s)[i] == ascii_upper(s[i]));
}

/// A text that is not ASCII throughout is put in upper case as a whole.
pub proof fn other_text_is_put_in_upper_case_as_a_whole(s: Seq<char>, i: int)
    requires
        0 <= i < s.len(),
        s[i] as int >= 128,
    ensures
        upper_text(s) == upper(s),
{
}

/// The entry of a line has the time of its first word, its second word in upper case and the
/// message in the rest.
pub proof fn entry_holds_time_level_and_message(
    e: EntryView,
    line: Seq<char>,
    time: Seq<char>,
    level: Seq<char>,
    rest: Seq<char>,
    l: LogEntry,
)
    requires
        line_parts(line) == (time, level, rest),
    ensures
        is_entry_of(e, line) <==> is_shown_for(e.time, time) && e.level == upper_text(level)
            && e.message == message_of(rest),
        entry_of(time, level, rest).time == time,
        entry_of(time, level, rest).level == level,
        entry_of(time, level, rest).message == message_of(rest),
        l@.time == l.time@,
        l@.level == l.level@,
        l@.message == l.message@,
{
}

/// The lines of a file end at line feeds.
pub proof fn lines_end_at_line_feeds(a: Seq<char>, b: Seq<char>)
    ensures
        lines_of(a.push('\n') + b) == lines_of(a) + lines_of(b),
        !a.contains('\n') ==> lines_of(a) == seq![a],
{
    let p = any_of(seq!['\n']);
    assert(seq!['\n'][0] == '\n');
    assert(seq!['\n'].contains('\n'));
    separator_parts_the_pieces(a, '\n', b, p);
    if !a.contains('\n') {
        assert forall|i: int| 0 <= i < a.len() implies !p(#[trigger] a[i]) by {
            if seq!['\n'].contains(a[i]) {
                assert(a[i] == '\n');
                assert(a.contains(a[i]));
            }
        }
        text_without_separator_is_one_piece(a, p);
    }
}

/// Files are read one after the other.
pub proof fn files_are_read_in_order(a: Seq<Seq<char>>, b: Seq<Seq<char>>, file: Seq<char>)
    ensures
        all_lines(a + b) == all_lines(a) + all_lines(b),
        all_lines(seq![file]) == lines_of(file),
    decreases b.len(),
{
    assert(seq![file].drop_last() =~= Seq::<Seq<char>>::empty());
    reveal_with_fuel(all_lines, 2);
    assert(all_lines(seq![file]) =~= lines_of(file));
    if b.len() == 0 {
        assert(a + b =~= a);
        assert(all_lines(a) + all_lines(b) =~= all_lines(a));
    } else {
        files_are_read_in_order(a, b.drop_last(), file);
        assert((a + b).drop_last() =~= a + b.drop_last());
        assert((a + b).last() == b.last());
        assert(all_lines(a + b) =~= all_lines(a) + all_lines(b));
    }
}

/// Every line that is not blank has its entry, and no other line has one.
pub proof fn every_line_has_its_entry(e: EntryView, line: Seq<char>)
    ensures
        trimmed(line).len() == 0 ==> are_entries_of(Seq::empty(), seq![line]),
        trimmed(line).len() == 0 ==> !are_entries_of(seq![e], seq![line]),
        trimmed(line).len() > 0 ==> (are_entries_of(seq![e], seq![line]) <==> is_entry_of(
            e,
            trimmed(line),
        )),
        trimmed(line).len() > 0 ==> !are_entries_of(Seq::empty(), seq![line]),
{
    assert(seq![line].drop_last() =~= Seq::<Seq<char>>::empty());
    assert(seq![e].drop_last() =~= Seq::<EntryView>::empty());
    reveal_with_fuel(are_entries_of, 2);
}

/// The entries of lines put together are put together in the same order.
pub proof fn entries_stand_in_order(
    a: Seq<EntryView>,
    x: Seq<Seq<char>>,
    b: Seq<EntryView>,
    y: Seq<Seq<char>>,
)
    requires
        are_entries_of(a, x),
        are_entries_of(b, y),
    ensures
        are_entries_of(a + b, x + y),
    decreases y.len(),
{
    if y.len() == 0 {
        assert(x + y =~= x);
        assert(a + b =~= a);
    } else {
        assert((x + y).drop_last() =~= x + y.drop_last());
        assert((x + y).last() == y.last());
        if trimmed(y.last()).len() == 0 {
            entries_stand_in_order(a, x, b, y.drop_last());
        } else {
            assert((a + b).drop_last() =~= a + b.drop_last());
            assert((a + b).last() == b.last());
            entries_stand_in_order(a, x, b.drop_last(), y.drop_last());
        }
    }
}

// ---------------------------------------------------------------------------
// Order
// ---------------------------------------------------------------------------

/// The lines of one time, in order.
pub open spec fn of_time(s: Seq<EntryView>, t: Seq<char>) -> Seq<EntryView>
    decreases s.len(),
{
    if s.len() == 0 {
        seq![]
    } else if s.last().time == t {
        of_time(s.drop_last(), t).push(s.last())
    } else {
        of_time(s.drop_last(), t)
    }
}

proof fn lemma_inserted_behind(s: Seq<EntryView>, e: EntryView, t: Seq<char>)
    ensures
        of_time(inserted(s, e), t) == if e.time == t {
            of_time(s, t).push(e)
        } else {
            of_time(s, t)
        },
    decreases s.len(),
{
    let r = inserted(s, e);
    if s.len() == 0 {
        assert(r.drop_last() =~= s);
        reveal_with_fuel(of_time, 2);
    } else if text_le(s.last().time, e.time) {
        assert(r.drop_last() =~= s);
    } else {
        text_order_is_total(e.time, e.time);
        assert(s.last().time != e.time);
        lemma_inserted_behind(s.drop_last(), e, t);
        assert(r.drop_last() =~= inserted(s.drop_last(), e));
        assert(r.last() == s.last());
    }
}

/// Lines of the same time stay in the order in which they were read.
pub proof fn lines_of_one_time_stay_in_order(s: Seq<EntryView>, t: Seq<char>)
    ensures
        of_time(by_time(s), t) == of_time(s, t),
    decreases s.len(),
{
    if s.len() > 0 {
        lines_of_one_time_stay_in_order(s.drop_last(), t);
        lemma_inserted_behind(by_time(s.drop_last()), s.last(), t);
    }
}

/// A user is shown two hundred lines, the last ones, or all where there are no more.
pub proof fn two_hundred_lines_are_shown(s: Seq<EntryView>)
    ensures
        s.len() <= 200 ==> newest(s) == by_time(s),
        s.len() > 200 ==> newest(s).len() == 200 && newest(s) == by_time(s).skip(s.len() - 200),
{
    shown_lines_are_the_newest(s);
    assert(by_time(s).skip(0) =~= by_time(s));
}

// ---------------------------------------------------------------------------
// Deleting
// ---------------------------------------------------------------------------

/// A file is deleted exactly if its name begins with the prefix and its last change is
/// longer ago than it may be, to the nanosecond.
pub proof fn old_logs_are_deleted(file: LogFile, prefix: Seq<char>, rest: Seq<char>, kept: Span)
    requires
        kept.nanos < 1_000_000_000,
        file.age matches Some(a) ==> a.nanos < 1_000_000_000,
    ensures
        file.name@ == prefix + rest ==> (is_expired(file, prefix, kept) <==> file.age is Some
            && file.age->0.secs * 1_000_000_000 + file.age->0.nanos > kept.secs * 1_000_000_000
            + kept.nanos),
        is_expired(file, prefix, kept) ==> file.name@ == prefix + file.name@.skip(
            prefix.len() as int,
        ),
{
    if file.name@ == prefix + rest {
        assert((prefix + rest).take(prefix.len() as int) =~= prefix);
        assert(prefix.is_prefix_of(file.name@));
    }
    if prefix.is_prefix_of(file.name@) {
        assert(file.name@ =~= prefix + file.name@.skip(prefix.len() as int));
    }
}

/// The files to delete stand in the order of the list.
pub proof fn old_logs_are_found_in_order(
    files: Seq<LogFile>,
    prefix: Seq<char>,
    kept: Span,
    j: int,
    k: int,
)
    requires
        0 <= j < k < expired(files, prefix, kept).len(),
    ensures
        0 <= expired(files, prefix, kept)[j] < expired(files, prefix, kept)[k] < files.len(),
    decreases files.len(),
{
    let front = expired(files.drop_last(), prefix, kept);
    let all = expired(files, prefix, kept);
    crate::log_prune::only_expired_logs_are_deleted(files, prefix, kept, j);
    crate::log_prune::only_expired_logs_are_deleted(files, prefix, kept, k);
    assert(all[j] == front[j]);
    crate::log_prune::only_expired_logs_are_deleted(files.drop_last(), prefix, kept, j);
    if k < front.len() {
        old_logs_are_found_in_order(files.drop_last(), prefix, kept, j, k);
        assert(all[k] == front[k]);
    } else {
        assert(all[k] == files.len() - 1);
    }
}

/// Deletions that went well are counted, each for itself.
pub proof fn deletions_are_counted(a: Seq<bool>, b: Seq<bool>, went_well: bool)
    ensures
        deleted(a + b) == deleted(a) + deleted(b),
        deleted(seq![went_well]) == if went_well {
            1nat
        } else {
            0nat
        },
    decreases b.len(),
{
    assert(seq![went_well].drop_last() =~= Seq::<bool>::empty());
    reveal_with_fuel(deleted, 2);
    if b.len() == 0 {
        assert(a + b =~= a);
    } else {
        deletions_are_counted(a, b.drop_last(), went_well);
        assert((a + b).drop_last() =~= a + b.drop_last());
        assert((a + b).last() == b.last());
    }
}

/// Logs are kept for seven days and looked through every day.
pub proof fn logs_are_kept_for_a_week()
    ensures
        LOG_RETENTION_SECS == 7 * 24 * 60 * 60,
        PRUNE_INTERVAL_SECS == 24 * 60 * 60,
{
}

} // verus!
