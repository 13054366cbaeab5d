//! The log lines that a user is shown.

use vstd::prelude::*;

use crate::number::{digit_char, second_in_day};
use crate::text::{
    any_of, chars_of, code_of, concat3, cut_once, is_space, is_text_le, space_code, pieces,
    split_any, split_once, text_le, text_of, texts_view, trim_range, trimmed,
};

verus! {

/// How many lines a user is shown at most.
pub const MAX_ENTRIES: usize = 200;

/// The directory of the core's logs.
pub const CORE_LOG_DIR: &'static str = r"C:\ProgramData\BypassTool\logs";

/// A line of a log.
#[derive(Debug)]
pub struct LogEntry {
    pub time: String,
    pub level: String,
    pub message: String,
}

/// A line of a log by its contents.
pub struct EntryView {
    pub time: Seq<char>,
    pub level: Seq<char>,
    pub message: Seq<char>,
}

impl View for LogEntry {
    type V = EntryView;

    open spec fn view(&self) -> EntryView {
        EntryView { time: self.time@, level: self.level@, message: self.message@ }
    }
}

impl Clone for LogEntry {
    fn clone(&self) -> (res: Self)
        ensures
            res@ == self@,
    {
        LogEntry {
            time: self.time.clone(),
            level: self.level.clone(),
            message: self.message.clone(),
        }
    }
}

/// Lines by their contents.
pub open spec fn entries_view(v: Seq<LogEntry>) -> Seq<EntryView> {
    v.map_values(|e: LogEntry| e@)
}

/// The name of the log file of a day.
pub fn log_file_name(prefix: &str, day: &str) -> (name: String)
    ensures
        name@ == prefix@ + ".log."@ + day@,
{
    concat3(prefix, ".log.", day)
}

// ---------------------------------------------------------------------------
// Times
// ---------------------------------------------------------------------------

/// The moment that chrono reads a text as, if as one: whole seconds since the epoch, and
/// the nanoseconds after them, a second or more of which mean a leap second.
pub uninterp spec fn rfc3339_instant(s: Seq<char>) -> Option<(i64, u32)>;

/// Whether a character is a decimal digit.
pub open spec fn is_digit(c: char) -> bool {
    48 <= c as int <= 57
}

/// Whether a text is a time of day such as "16:40:22".
pub open spec fn is_hms(s: Seq<char>) -> bool {
    &&& s.len() == 8
    &&& is_digit(s[0]) && is_digit(s[1]) && s[2] == ':'
    &&& is_digit(s[3]) && is_digit(s[4]) && s[5] == ':'
    &&& is_digit(s[6]) && is_digit(s[7])
}

/// A moment, by its seconds and nanoseconds, and the seconds that the clock on the wall
/// is ahead of it.
pub type LocalTime = (i64, u32, i32);

/// `chrono::DateTime::parse_from_rfc3339`, then `with_timezone`: the moment, with less than
/// two seconds of nanoseconds, and the machine's offset at that moment, which is less than
/// a day. Which offset that is depends on the machine and is not said.
#[verifier::external_body]
fn read_local(raw: &str) -> (out: Option<LocalTime>)
    ensures
        match out {
            Some((secs, nanos, offset)) => {
                &&& rfc3339_instant(raw@) == Some((secs, nanos))
                &&& nanos < 2_000_000_000
                &&& -86_400 < offset < 86_400
            },
            None => rfc3339_instant(raw@) is None,
        },
{
    let time = chrono::DateTime::parse_from_rfc3339(raw).ok()?.with_timezone(&chrono::Local);
    Some((time.timestamp(), time.timestamp_subsec_nanos(), time.offset().local_minus_utc()))
}

/// A number below a hundred with two digits.
pub open spec fn two_digits(n: int) -> Seq<char> {
    seq![digit_char((n / 10) as nat), digit_char((n % 10) as nat)]
}

/// The time of day of a moment where the clock on the wall is ahead by the offset. A leap
/// second is counted on top of the second that it follows.
pub open spec fn time_of_day(secs: int, nanos: int, offset: int) -> Seq<char> {
    let t = (secs + offset) % 86_400;
    two_digits(t / 3600) + seq![':'] + two_digits(t / 60 % 60) + seq![':'] + two_digits(
        t % 60 + nanos / 1_000_000_000,
    )
}

fn append_two(out: &mut String, n: u32)
    requires
        n < 100,
    ensures
        final(out)@ == old(out)@ + two_digits(n as int),
{
    out.push((48u8 + (n / 10) as u8) as char);
    out.push((48u8 + (n % 10) as u8) as char);
    assert(out@ =~= old(out)@ + two_digits(n as int));
}

/// Writes the time of day of a moment where the clock on the wall is ahead by the offset.
pub fn write_time_of_day(secs: i64, nanos: u32, offset: i32) -> (out: String)
    ensures
        out@ == time_of_day(secs as int, nanos as int, offset as int),
{
    let t: u32 = second_in_day(secs as i128 + offset as i128);
    let mut out = String::new();
    append_two(&mut out, t / 3600);
    out.push(':');
    append_two(&mut out, t / 60 % 60);
    out.push(':');
    append_two(&mut out, t % 60 + nanos / 1_000_000_000);
    assert(out@ =~= time_of_day(secs as int, nanos as int, offset as int));
    out
}

/// A time of day is written with two digits for each of its parts.
pub proof fn time_of_day_has_its_form(secs: int, nanos: int, offset: int)
    requires
        0 <= nanos < 2_000_000_000,
    ensures
        is_hms(time_of_day(secs, nanos, offset)),
{
}

/// The time of day in a text that is not a proper time: what stands between the 'T' and
/// the fraction.
pub open spec fn cut_time(raw: Seq<char>) -> Seq<char> {
    match split_once(raw, 'T') {
        Some((_, t)) => match split_once(t, '.') {
            Some((h, _)) => h,
            None => t,
        },
        None => raw,
    }
}

/// The time of day that a user is shown, given the moment and the offset where there are
/// any.
pub fn shown_time(raw: &str, local: Option<LocalTime>) -> (out: String)
    ensures
        out@ == match local {
            Some((secs, nanos, offset)) => time_of_day(secs as int, nanos as int, offset as int),
            None => cut_time(raw@),
        },
{
    match local {
        Some((secs, nanos, offset)) => write_time_of_day(secs, nanos, offset),
        None => match cut_once(raw, 'T') {
            Some((_, t)) => match cut_once(t.as_str(), '.') {
                Some((h, _)) => h,
                None => t,
            },
            None => raw.to_owned(),
        },
    }
}

/// Whether a text is the time of day of a moment under some offset of less than a day.
pub open spec fn is_time_of(shown: Seq<char>, secs: i64, nanos: u32) -> bool {
    exists|offset: int|
        -86_400 < offset < 86_400 && shown == #[trigger] time_of_day(
            secs as int,
            nanos as int,
            offset,
        )
}

/// Whether a text is what a user is shown for a time in a log: the time of day of that
/// moment, or a part of the text where that is no moment.
pub open spec fn is_shown_for(shown: Seq<char>, raw: Seq<char>) -> bool {
    match rfc3339_instant(raw) {
        Some(moment) => is_hms(shown) && is_time_of(shown, moment.0, moment.1),
        None => shown == cut_time(raw),
    }
}

/// The time of day that a user is shown for a time in a log.
pub fn format_local_hms(raw: &str) -> (out: String)
    ensures
        is_shown_for(out@, raw@),
{
    let local = read_local(raw);
    let out = shown_time(raw, local);
    proof {
        match local {
            Some((secs, nanos, offset)) => {
                time_of_day_has_its_form(secs as int, nanos as int, offset as int);
                assert(out@ == time_of_day(secs as int, nanos as int, offset as int));
                assert(is_time_of(out@, secs, nanos));
            },
            None => {},
        }
    }
    out
}

// ---------------------------------------------------------------------------
// Lines
// ---------------------------------------------------------------------------

/// The first word of a text, and what follows it without the white space in between.
pub open spec fn first_word(s: Seq<char>) -> (Seq<char>, Seq<char>) {
    let n = word_len(s);
    (s.take(n), crate::text::trim_start(s.skip(n)))
}

/// How long the first word of a text is.
pub open spec fn word_len(s: Seq<char>) -> int
    decreases s.len(),
{
    if s.len() == 0 || is_space(s[0]) {
        0
    } else {
        1 + word_len(s.skip(1))
    }
}

/// Where the colon stands that ends the target of a message: the first one that is not
/// part of a double colon. The length if there is none.
pub open spec fn target_end(s: Seq<char>, i: int) -> int
    decreases s.len() - i,
{
    if i < 0 || i >= s.len() {
        s.len() as int
    } else if s[i] == ':' && (i + 1 >= s.len() || s[i + 1] != ':') && (i == 0 || s[i - 1] != ':') {
        i
    } else {
        target_end(s, i + 1)
    }
}

/// The message without the target before it.
pub open spec fn message_of(rest: Seq<char>) -> Seq<char> {
    let i = target_end(rest, 0);
    if i < rest.len() {
        trimmed(rest.skip(i + 1))
    } else {
        rest
    }
}

/// The parts of a line: time, level, and the rest. A line that lacks some of them is a
/// rest as a whole.
pub open spec fn line_parts(line: Seq<char>) -> (Seq<char>, Seq<char>, Seq<char>) {
    let (time, more) = first_word(line);
    let (level, rest) = first_word(more);
    (
        time,
        level,
        if rest.len() == 0 {
            line
        } else {
            rest
        },
    )
}

/// Where the first word after `from` ends, and where the next one begins.
fn word_range(v: &Vec<char>, from: usize) -> (r: (usize, usize))
    requires
        from <= v@.len(),
    ensures
        from <= r.0 <= r.1 <= v@.len(),
        first_word(v@.skip(from as int)) == (
            v@.subrange(from as int, r.0 as int),
            v@.skip(r.1 as int),
        ),
{
    let ghost s = v@.skip(from as int);
    let mut i: usize = from;
    assert(s.skip(0) =~= s);
    while i < v.len() && !space_code(code_of(v[i]))
        invariant
            from <= i <= v@.len(),
            s == v@.skip(from as int),
            word_len(s) == i - from + word_len(s.skip(i - from)),
        decreases v@.len() - i,
    {
        assert(s.skip(i - from)[0] == v@[i as int]);
        assert(s.skip(i - from).skip(1) =~= s.skip(i + 1 - from));
        i = i + 1;
    }
    proof {
        if i < v@.len() {
            assert(s.skip(i - from)[0] == v@[i as int]);
        }
        assert(word_len(s) == i - from);
        assert(s.take(i - from) =~= v@.subrange(from as int, i as int));
        assert(s.skip(i - from) =~= v@.skip(i as int));
    }
    let mut j: usize = i;
    while j < v.len() && space_code(code_of(v[j]))
        invariant
            from <= i <= j <= v@.len(),
            crate::text::trim_start(v@.skip(i as int)) == crate::text::trim_start(v@.skip(j as int)),
        decreases v@.len() - j,
    {
        assert(v@.skip(j as int)[0] == v@[j as int]);
        assert(v@.skip(j as int).skip(1) =~= v@.skip(j + 1));
        j = j + 1;
    }
    proof {
        if j < v@.len() {
            assert(v@.skip(j as int)[0] == v@[j as int]);
        }
    }
    (i, j)
}

fn find_target_end(v: &Vec<char>) -> (i: usize)
    ensures
        i == target_end(v@, 0),
        i <= v@.len(),
{
    let mut i: usize = 0;
    while i < v.len()
        invariant
            i <= v@.len(),
            target_end(v@, 0) == target_end(v@, i as int),
        decreases v@.len() - i,
    {
        let last = v.len() - i == 1;
        if v[i] == ':' && (last || v[i + 1] != ':') && (i == 0 || v[i - 1] != ':') {
            return i;
        }
        i = i + 1;
    }
    i
}

/// The message without the target before it.
pub fn strip_target(rest: &str) -> (out: String)
    ensures
        out@ == message_of(rest@),
{
    let v = chars_of(rest);
    let i = find_target_end(&v);
    if i < v.len() {
        let (lo, hi) = trim_range(&v, i + 1, v.len());
        assert(v@.subrange(i + 1, v@.len() as int) =~= rest@.skip(i + 1));
        text_of(&v, lo, hi)
    } else {
        rest.to_owned()
    }
}

/// Takes a line apart: time, level, and the rest.
pub fn split_line(line: &str) -> (parts: (String, String, String))
    ensures
        (parts.0@, parts.1@, parts.2@) == line_parts(line@),
{
    let v = chars_of(line);
    assert(v@.skip(0) =~= line@);
    let (a, b) = word_range(&v, 0);
    let (c, d) = word_range(&v, b);
    let time = text_of(&v, 0, a);
    let level = text_of(&v, b, c);
    let rest = if d == v.len() {
        line.to_owned()
    } else {
        let t = text_of(&v, d, v.len());
        assert(t@ =~= v@.skip(d as int));
        t
    };
    (time, level, rest)
}

/// What `str::to_uppercase` makes of a text.
pub uninterp spec fn upper(s: Seq<char>) -> Seq<char>;

/// An upper-case letter for a lower-case one, as far as ASCII goes.
pub open spec fn ascii_upper(c: char) -> char {
    if 97 <= c as int <= 122 {
        (c as int - 32) as char
    } else {
        c
    }
}

/// Whether all characters are ASCII.
pub open spec fn all_ascii(s: Seq<char>) -> bool {
    forall|i: int| 0 <= i < s.len() ==> (#[trigger] s[i] as int) < 128
}

/// `str::to_uppercase`: the text in upper case. For ASCII the letters are replaced one
/// by one.
#[verifier::external_body]
fn to_upper(s: &str) -> (out: String)
    ensures
        out@ == upper(s@),
        all_ascii(s@) ==> out@ == s@.map_values(|c: char| ascii_upper(c)),
{
    s.to_uppercase()
}

/// A text in upper case: letter by letter where it is ASCII.
pub open spec fn upper_text(s: Seq<char>) -> Seq<char> {
    if all_ascii(s) {
        s.map_values(|c: char| ascii_upper(c))
    } else {
        upper(s)
    }
}

/// A line that a user is shown, by its parts.
pub open spec fn entry_of(time: Seq<char>, level: Seq<char>, rest: Seq<char>) -> EntryView {
    EntryView { time, level, message: message_of(rest) }
}

/// Makes the line that a user is shown out of its parts.
pub fn make_entry(time: String, level: String, rest: &str) -> (e: LogEntry)
    ensures
        e@ == entry_of(time@, level@, rest@),
{
    LogEntry { time, level, message: strip_target(rest) }
}

/// What holds of the entry of a line: the time of day of its first word, its second word
/// in upper case, and the message.
pub open spec fn is_entry_of(e: EntryView, line: Seq<char>) -> bool {
    let (time, level, rest) = line_parts(line);
    &&& e.level == upper_text(level)
    &&& e.message == message_of(rest)
    &&& is_shown_for(e.time, time)
}

/// Reads a line of a log, unless it is blank.
pub fn read_log_line(line: &str) -> (out: Option<LogEntry>)
    ensures
        match out {
            Some(e) => trimmed(line@).len() > 0 && is_entry_of(e@, trimmed(line@)),
            None => trimmed(line@).len() == 0,
        },
{
    let v = chars_of(line);
    let (lo, hi) = trim_range(&v, 0, v.len());
    assert(v@.subrange(0, v@.len() as int) =~= line@);
    if lo == hi {
        return None;
    }
    let text = text_of(&v, lo, hi);
    let (time_raw, level_raw, rest) = split_line(text.as_str());
    let time = format_local_hms(time_raw.as_str());
    let level = to_upper(level_raw.as_str());
    Some(make_entry(time, level, rest.as_str()))
}

// ---------------------------------------------------------------------------
// Order
// ---------------------------------------------------------------------------

/// The lines with one more, which goes behind all that are not later.
pub open spec fn inserted(s: Seq<EntryView>, e: EntryView) -> Seq<EntryView>
    decreases s.len(),
{
    if s.len() == 0 {
        seq![e]
    } else if text_le(s.last().time, e.time) {
        s.push(e)
    } else {
        inserted(s.drop_last(), e).push(s.last())
    }
}

/// The lines by time; lines of the same time stay in order.
pub open spec fn by_time(s: Seq<EntryView>) -> Seq<EntryView>
    decreases s.len(),
{
    if s.len() == 0 {
        seq![]
    } else {
        inserted(by_time(s.drop_last()), s.last())
    }
}

/// The last lines by time, as many as a user is shown.
pub open spec fn newest(s: Seq<EntryView>) -> Seq<EntryView> {
    let all = by_time(s);
    if all.len() > MAX_ENTRIES {
        all.skip(all.len() - MAX_ENTRIES)
    } else {
        all
    }
}

fn insert_entry(v: &mut Vec<LogEntry>, e: LogEntry)
    ensures
        entries_view(final(v)@) == inserted(entries_view(old(v)@), e@),
{
    let ghost all = entries_view(v@);
    let ghost before = v@;
    let mut i: usize = v.len();
    assert(all.take(all.len() as int) =~= all);
    assert(all.skip(all.len() as int) =~= Seq::<EntryView>::empty());
    proof {
        assert(inserted(all, e@) =~= inserted(all, e@) + Seq::<EntryView>::empty());
    }
    while i > 0 && !is_text_le(v[i - 1].time.as_str(), e.time.as_str())
        invariant
            i <= v@.len(),
            v@ == before,
            all == entries_view(before),
            inserted(all, e@) == inserted(all.take(i as int), e@) + all.skip(i as int),
        decreases i,
    {
        let ghost t = all.take(i as int);
        proof {
            assert(t.last() == before[i - 1]@);
            assert(t.drop_last() =~= all.take(i - 1));
            assert(inserted(t, e@) == inserted(all.take(i - 1), e@).push(t.last()));
            assert(seq![t.last()] + all.skip(i as int) =~= all.skip(i - 1));
            assert(inserted(all.take(i - 1), e@).push(t.last()) + all.skip(i as int) =~= inserted(
                all.take(i - 1),
                e@,
            ) + all.skip(i - 1));
        }
        i = i - 1;
    }
    proof {
        let t = all.take(i as int);
        if i > 0 {
            assert(t.last() == before[i - 1]@);
        }
        assert(inserted(t, e@) =~= t.push(e@));
    }
    v.insert(i, e);
    assert(entries_view(v@) =~= all.take(i as int).push(e@) + all.skip(i as int));
}

/// Sorts the lines by time and keeps the last ones.
pub fn newest_entries(entries: &Vec<LogEntry>) -> (out: Vec<LogEntry>)
    ensures
        entries_view(out@) == newest(entries_view(entries@)),
{
    let ghost all = entries_view(entries@);
    let mut sorted: Vec<LogEntry> = Vec::new();
    let mut i: usize = 0;
    proof {
        assert(all.take(0) =~= Seq::<EntryView>::empty());
        assert(entries_view(sorted@) =~= by_time(all.take(0)));
    }
    while i < entries.len()
        invariant
            i <= entries@.len(),
            all == entries_view(entries@),
            entries_view(sorted@) == by_time(all.take(i as int)),
        decreases entries@.len() - i,
    {
        assert(all.take(i + 1).drop_last() =~= all.take(i as int));
        insert_entry(&mut sorted, entries[i].clone());
        i = i + 1;
    }
    assert(all.take(all.len() as int) =~= all);
    if sorted.len() > MAX_ENTRIES {
        let cut: usize = sorted.len() - MAX_ENTRIES;
        let ghost s = sorted@;
        let out = sorted.split_off(cut);
        assert(entries_view(out@) =~= entries_view(s).skip(cut as int));
        out
    } else {
        sorted
    }
}

/// The lines of a file.
pub open spec fn lines_of(text: Seq<char>) -> Seq<Seq<char>> {
    pieces(text, any_of(seq!['\n']))
}

/// The lines of all files, one file after the other.
pub open spec fn all_lines(files: Seq<Seq<char>>) -> Seq<Seq<char>>
    decreases files.len(),
{
    if files.len() == 0 {
        seq![]
    } else {
        all_lines(files.drop_last()) + lines_of(files.last())
    }
}

/// Adds the entries of a file to those of earlier lines.
fn read_log_file(text: &str, all: &mut Vec<LogEntry>, earlier: Ghost<Seq<Seq<char>>>)
    requires
        are_entries_of(entries_view(old(all)@), earlier@),
    ensures
        are_entries_of(entries_view(final(all)@), earlier@ + lines_of(text@)),
{
    let mut newline: Vec<char> = Vec::new();
    newline.push('\n');
    assert(newline@ =~= seq!['\n']);
    let lines = split_any(text, &newline);
    let ghost file = texts_view(lines@);
    let mut k: usize = 0;
    assert(earlier@ + file.take(0) =~= earlier@);
    while k < lines.len()
        invariant
            k <= lines@.len(),
            file == texts_view(lines@),
            are_entries_of(entries_view(all@), earlier@ + file.take(k as int)),
        decreases lines@.len() - k,
    {
        let ghost so_far = earlier@ + file.take(k as int);
        let ghost more = earlier@ + file.take(k + 1);
        assert(more.drop_last() =~= so_far);
        assert(more.last() == lines@[k as int]@);
        match read_log_line(lines[k].as_str()) {
            Some(e) => {
                let ghost before = entries_view(all@);
                all.push(e);
                assert(entries_view(all@) =~= before.push(e@));
                assert(entries_view(all@).drop_last() =~= before);
            },
            None => {},
        }
        k = k + 1;
    }
    assert(file.take(file.len() as int) =~= file);
}

/// Reads the logs, given by their texts, and picks the lines that a user is shown, the
/// oldest first.
pub fn read_logs(files: &Vec<String>) -> (out: Vec<LogEntry>)
    ensures
        exists|all: Seq<EntryView>|
            {
                &&& are_entries_of(all, all_lines(texts_view(files@)))
                &&& entries_view(out@) == newest(all)
            },
{
    let mut all: Vec<LogEntry> = Vec::new();
    let ghost texts = texts_view(files@);
    let mut i: usize = 0;
    assert(entries_view(all@) =~= Seq::<EntryView>::empty());
    while i < files.len()
        invariant
            i <= files@.len(),
            texts == texts_view(files@),
            are_entries_of(entries_view(all@), all_lines(texts.take(i as int))),
        decreases files@.len() - i,
    {
        assert(texts.take(i + 1).drop_last() =~= texts.take(i as int));
        assert(texts[i as int] == files@[i as int]@);
        read_log_file(files[i].as_str(), &mut all, Ghost(all_lines(texts.take(i as int))));
        i = i + 1;
    }
    assert(texts.take(texts.len() as int) =~= texts);
    newest_entries(&all)
}

/// Whether the entries are those of the lines that are not blank, in order.
pub open spec fn are_entries_of(entries: Seq<EntryView>, lines: Seq<Seq<char>>) -> bool
    decreases lines.len(),
{
    if lines.len() == 0 {
        entries.len() == 0
    } else if trimmed(lines.last()).len() == 0 {
        are_entries_of(entries, lines.drop_last())
    } else {
        &&& entries.len() > 0
        &&& is_entry_of(entries.last(), trimmed(lines.last()))
        &&& are_entries_of(entries.drop_last(), lines.drop_last())
    }
}

// ---------------------------------------------------------------------------
// Laws
// ---------------------------------------------------------------------------

/// Texts can always be compared one way or the other.
pub proof fn text_order_is_total(a: Seq<char>, b: Seq<char>)
    ensures
        text_le(a, b) || text_le(b, a),
    decreases a.len(),
{
    if a.len() > 0 && b.len() > 0 && a[0] == b[0] {
        text_order_is_total(a.skip(1), b.skip(1));
    }
}

/// The order of texts carries over.
pub proof fn text_order_is_transitive(a: Seq<char>, b: Seq<char>, c: Seq<char>)
    requires
        text_le(a, b),
        text_le(b, c),
    ensures
        text_le(a, c),
    decreases a.len(),
{
    if a.len() > 0 && b.len() > 0 && c.len() > 0 && a[0] == b[0] && b[0] == c[0] {
        text_order_is_transitive(a.skip(1), b.skip(1), c.skip(1));
    }
}

/// Whether the lines are in the order of their times.
pub open spec fn in_order(s: Seq<EntryView>) -> bool {
    forall|i: int, j: int|
        0 <= i <= j < s.len() ==> text_le(#[trigger] s[i].time, #[trigger] s[j].time)
}

proof fn lemma_inserted(s: Seq<EntryView>, e: EntryView)
    requires
        in_order(s),
    ensures
        in_order(inserted(s, e)),
        inserted(s, e).to_multiset() =~= s.to_multiset().insert(e),
        inserted(s, e).len() == s.len() + 1,
        forall|b: EntryView|
            (forall|k: int| 0 <= k < s.len() ==> text_le(#[trigger] s[k].time, b.time)) && text_le(
                e.time,
                b.time,
            ) ==> (forall|k: int|
                0 <= k < inserted(s, e).len() ==> text_le(
                    #[trigger] inserted(s, e)[k].time,
                    b.time,
                )),
    decreases s.len(),
{
    broadcast use vstd::seq_lib::group_to_multiset_ensures;

    let r = inserted(s, e);
    if s.len() == 0 {
        text_order_is_total(e.time, e.time);
        assert(s =~= Seq::<EntryView>::empty());
        assert(r =~= s.push(e));
    } else if text_le(s.last().time, e.time) {
        text_order_is_total(e.time, e.time);
        assert forall|i: int, j: int| 0 <= i <= j < r.len() implies text_le(
            #[trigger] r[i].time,
            #[trigger] r[j].time,
        ) by {
            if j < s.len() {
                assert(text_le(s[i].time, s[j].time));
            } else if i < s.len() {
                assert(text_le(s[i].time, s[s.len() - 1].time));
                text_order_is_transitive(s[i].time, s.last().time, e.time);
            }
        }
    } else {
        let front = s.drop_last();
        let last = s.last();
        let f = inserted(front, e);
        text_order_is_total(last.time, e.time);
        assert forall|i: int, j: int| 0 <= i <= j < front.len() implies text_le(
            #[trigger] front[i].time,
            #[trigger] front[j].time,
        ) by {
            assert(text_le(s[i].time, s[j].time));
        }
        lemma_inserted(front, e);
        assert forall|k: int| 0 <= k < front.len() implies text_le(
            #[trigger] front[k].time,
            last.time,
        ) by {
            assert(text_le(s[k].time, s[s.len() - 1].time));
        }
        assert(forall|k: int| 0 <= k < f.len() ==> text_le(#[trigger] f[k].time, last.time));
        text_order_is_total(last.time, last.time);
        assert forall|i: int, j: int| 0 <= i <= j < r.len() implies text_le(
            #[trigger] r[i].time,
            #[trigger] r[j].time,
        ) by {
            if j < f.len() {
                assert(text_le(f[i].time, f[j].time));
            } else if i < f.len() {
                assert(text_le(f[i].time, last.time));
            }
        }
        assert(s =~= front.push(last));
        assert(r.to_multiset() =~= f.to_multiset().insert(last));
        assert(s.to_multiset() =~= front.to_multiset().insert(last));
        assert(r.to_multiset() =~= s.to_multiset().insert(e));
        assert forall|b: EntryView|
            (forall|k: int| 0 <= k < s.len() ==> text_le(#[trigger] s[k].time, b.time)) && text_le(
                e.time,
                b.time,
            ) implies (forall|k: int|
            0 <= k < r.len() ==> text_le(#[trigger] r[k].time, b.time)) by {
            assert forall|k: int| 0 <= k < front.len() implies text_le(
                #[trigger] front[k].time,
                b.time,
            ) by {
                assert(text_le(s[k].time, b.time));
            }
            assert(text_le(s[s.len() - 1].time, b.time));
            assert forall|k: int| 0 <= k < r.len() implies text_le(#[trigger] r[k].time, b.time) by {
                if k < f.len() {
                    assert(text_le(f[k].time, b.time));
                }
            }
        }
    }
}

/// Sorting puts the lines in order and neither adds nor loses one.
pub proof fn sorting_orders_and_keeps_lines(s: Seq<EntryView>)
    ensures
        in_order(by_time(s)),
        by_time(s).to_multiset() =~= s.to_multiset(),
        by_time(s).len() == s.len(),
    decreases s.len(),
{
    broadcast use vstd::seq_lib::group_to_multiset_ensures;

    if s.len() > 0 {
        sorting_orders_and_keeps_lines(s.drop_last());
        lemma_inserted(by_time(s.drop_last()), s.last());
        assert(s =~= s.drop_last().push(s.last()));
    }
}

/// A user is shown the last lines by time, in order, and no more than the limit.
pub proof fn shown_lines_are_the_newest(s: Seq<EntryView>)
    ensures
        in_order(newest(s)),
        newest(s).len() <= MAX_ENTRIES,
        newest(s).len() == if s.len() > MAX_ENTRIES {
            MAX_ENTRIES as nat
        } else {
            s.len()
        },
        newest(s) == by_time(s).skip(s.len() - newest(s).len()),
{
    sorting_orders_and_keeps_lines(s);
    let all = by_time(s);
    let n = newest(s);
    let d = all.len() - n.len();
    assert(all.skip(0) =~= all);
    assert forall|i: int, j: int| 0 <= i <= j < n.len() implies text_le(
        #[trigger] n[i].time,
        #[trigger] n[j].time,
    ) by {
        assert(n[i] == all[i + d]);
        assert(n[j] == all[j + d]);
    }
}

} // verus!
