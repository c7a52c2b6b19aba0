//! The log subsystem: levels, entries, the queue, and how messages are put together.
//!
//! Nothing here writes to a terminal or reads a clock. The caller says how long
//! the program has run, and is handed the text to show with the color to show it in.

use vstd::prelude::*;
use vstd::string::StringExecFns;
use crate::define::{HOUR_AS_SECONDS, MIN_AS_SECONDS};
use crate::text::{append_chars, append_decimal, chars_of, decimal};

verus! {

/// What a message is continued with on a new line: the line break and the blanks
/// that bring the text under the column where messages start.
pub const TAB_MESSAGE: &'static str = "\n                       ";

/// The number of characters a log entry may hold.
pub const LOG_BUFFER_SIZE: usize = 20000;

/// The number of entries at which the queue is full.
pub const LOG_MAX_QUEUE_SIZE: usize = 300;

/// The number of characters of a message that stand on one line.
pub const MAX_LINE_LEN: usize = 90;

/// The number of nanoseconds in a hundredth of a second.
pub const NANOS_PER_CENTI: u32 = 10_000_000;

/// Severity of a log entry, from the gravest to the most detailed.
#[derive(Debug, Clone, Copy, PartialEq, Eq, Structural)]
pub enum Level {
    FATAL,
    ERROR,
    WARN,
    INFO,
    DEBUG,
    TRACE,
}

/// The color a log entry is shown in.
#[derive(Debug, Clone, Copy, PartialEq, Eq, Structural)]
pub enum Color {
    Red,
    Yellow,
    Blue,
    Green,
    Magenta,
}

// ------------------------------------------------------------------------------------------------
// Formatting
//
/// The tag of a level in a log entry.
pub open spec fn level_tag(level: Level) -> Seq<char> {
    match level {
        Level::FATAL => "[FATAL]:"@,
        Level::ERROR => "[ERROR]:"@,
        Level::WARN => "[WARN]: "@,
        Level::INFO => "[INFO]: "@,
        Level::DEBUG => "[DEBUG]:"@,
        Level::TRACE => "[TRACE]:"@,
    }
}

/// The color of a level: red for what cannot be switched off, yellow for
/// warnings, blue, green and magenta for information, debugging and tracing.
pub open spec fn level_color(level: Level) -> Color {
    match level {
        Level::FATAL => Color::Red,
        Level::ERROR => Color::Red,
        Level::WARN => Color::Yellow,
        Level::INFO => Color::Blue,
        Level::DEBUG => Color::Green,
        Level::TRACE => Color::Magenta,
    }
}

/// A number as it stands in a time stamp: in decimal, with a zero in front where
/// it is under nine.
pub open spec fn padded(value: nat) -> Seq<char> {
    if value < 9 {
        "0"@ + decimal(value)
    } else {
        decimal(value)
    }
}

/// The time stamp of a running time: hours, minutes, seconds and hundredths of a
/// second, between brackets and parted by colons.
pub open spec fn duration_text(secs: nat, subsec_nanos: nat) -> Seq<char> {
    "["@ + padded(secs / (HOUR_AS_SECONDS as nat)) + ":"@ + padded(
        (secs % (HOUR_AS_SECONDS as nat)) / (MIN_AS_SECONDS as nat),
    ) + ":"@ + padded(secs % (MIN_AS_SECONDS as nat)) + ":"@ + padded(
        subsec_nanos / (NANOS_PER_CENTI as nat),
    ) + "]"@
}

/// A log entry: time stamp, level and message, parted by blanks.
pub open spec fn entry_text(level: Level, message: Seq<char>, secs: nat, subsec_nanos: nat)
    -> Seq<char> {
    duration_text(secs, subsec_nanos) + " "@ + level_tag(level) + " "@ + message
}

/// The part of a message from `from` on, broken into lines of `MAX_LINE_LEN`
/// characters; each line but the first starts under the column of the message.
pub open spec fn wrapped_from(message: Seq<char>, from: int) -> Seq<char>
    decreases message.len() - from,
{
    if message.len() - from <= MAX_LINE_LEN {
        message.subrange(from, message.len() as int)
    } else {
        message.subrange(from, from + MAX_LINE_LEN) + TAB_MESSAGE@ + wrapped_from(
            message,
            from + MAX_LINE_LEN,
        )
    }
}

/// A message broken into lines.
pub open spec fn wrapped(message: Seq<char>) -> Seq<char> {
    wrapped_from(message, 0)
}

/// A text cut to what a log entry may hold.
pub open spec fn bounded(text: Seq<char>) -> Seq<char> {
    if text.len() > LOG_BUFFER_SIZE - 1 {
        text.take(LOG_BUFFER_SIZE as int)
    } else {
        text
    }
}

/// The content of the log entry for a message.
pub open spec fn log_content(level: Level, message: Seq<char>, secs: nat, subsec_nanos: nat)
    -> Seq<char> {
    bounded(entry_text(level, wrapped(message), secs, subsec_nanos))
}

/// Gives the tag of a level.
pub fn level_string(level: Level) -> (r: &'static str)
    ensures
        r@ == level_tag(level),
{
    match level {
        Level::FATAL => "[FATAL]:",
        Level::ERROR => "[ERROR]:",
        Level::WARN => "[WARN]: ",
        Level::INFO => "[INFO]: ",
        Level::DEBUG => "[DEBUG]:",
        Level::TRACE => "[TRACE]:",
    }
}

/// Gives the color a level is shown in.
pub fn color_of(level: Level) -> (r: Color)
    ensures
        r == level_color(level),
{
    match level {
        Level::FATAL => Color::Red,
        Level::ERROR => Color::Red,
        Level::WARN => Color::Yellow,
        Level::INFO => Color::Blue,
        Level::DEBUG => Color::Green,
        Level::TRACE => Color::Magenta,
    }
}

/// Writes a number in decimal, with a zero in front where it is under nine.
pub fn format_single_digit_value(value: u64) -> (r: String)
    ensures
        r@ == padded(value as nat),
{
    let mut r = String::new();
    if value < 9 {
        r.append("0");
    }
    append_decimal(&mut r, value);
    assert(r@ =~= padded(value as nat));
    r
}

/// Writes the time stamp of a running time of `secs` whole seconds and
/// `subsec_nanos` nanoseconds beyond them.
pub fn fmt_duration_log(secs: u64, subsec_nanos: u32) -> (r: String)
    ensures
        r@ == duration_text(secs as nat, subsec_nanos as nat),
{
    let hour = secs / HOUR_AS_SECONDS;
    let min = (secs % HOUR_AS_SECONDS) / MIN_AS_SECONDS;
    let sec = secs % MIN_AS_SECONDS;
    let centis = subsec_nanos / NANOS_PER_CENTI;
    let f_hour = format_single_digit_value(hour);
    let f_min = format_single_digit_value(min);
    let f_secs = format_single_digit_value(sec);
    let f_centis = format_single_digit_value(centis as u64);
    let mut r = String::from_str("[");
    r.append(f_hour.as_str());
    r.append(":");
    r.append(f_min.as_str());
    r.append(":");
    r.append(f_secs.as_str());
    r.append(":");
    r.append(f_centis.as_str());
    r.append("]");
    r
}

/// Puts a log entry together: time stamp, level and message.
pub fn fmt_log(level: Level, message: &str, secs: u64, subsec_nanos: u32) -> (r: String)
    ensures
        r@ == entry_text(level, message@, secs as nat, subsec_nanos as nat),
{
    let mut r = fmt_duration_log(secs, subsec_nanos);
    r.append(" ");
    r.append(level_string(level));
    r.append(" ");
    r.append(message);
    r
}

/// Breaks a message into lines of `MAX_LINE_LEN` characters.
pub fn wrap_message(message: &str) -> (r: String)
    ensures
        r@ == wrapped(message@),
{
    let chars = chars_of(message);
    let mut r = String::new();
    let mut from: usize = 0;
    while chars.len() - from > MAX_LINE_LEN
        invariant
            from <= chars.len(),
            chars@ == message@,
            r@ + wrapped_from(chars@, from as int) == wrapped_from(chars@, 0),
        decreases chars.len() - from,
    {
        let ghost before = r@;
        append_chars(&mut r, &chars, from, from + MAX_LINE_LEN);
        r.append(TAB_MESSAGE);
        proof {
            assert(r@ + wrapped_from(chars@, from + MAX_LINE_LEN) =~= before + wrapped_from(
                chars@,
                from as int,
            ));
        }
        from = from + MAX_LINE_LEN;
    }
    let ghost before = r@;
    append_chars(&mut r, &chars, from, chars.len());
    assert(r@ =~= before + wrapped_from(chars@, from as int));
    r
}

// ------------------------------------------------------------------------------------------------
// Entries and their queue
//
/// One log entry.
#[derive(Debug)]
pub struct Log {
    content: String,
}

impl Log {
    /// The text of the entry.
    pub closed spec fn text(self) -> Seq<char> {
        self.content@
    }

    /// Makes the entry for a message at a level, after the program has run for
    /// `secs` seconds and `subsec_nanos` nanoseconds. A long message is broken into
    /// lines; an entry that would be too long is cut.
    pub fn new(level: Level, message: &str, secs: u64, subsec_nanos: u32) -> (r: Self)
        ensures
            r.text() == log_content(level, message@, secs as nat, subsec_nanos as nat),
    {
        let lines = wrap_message(message);
        let msg = fmt_log(level, lines.as_str(), secs, subsec_nanos);
        let chars = chars_of(msg.as_str());
        if chars.len() > LOG_BUFFER_SIZE - 1 {
            let mut cut = String::new();
            append_chars(&mut cut, &chars, 0, LOG_BUFFER_SIZE);
            assert(cut@ =~= msg@.take(LOG_BUFFER_SIZE as int));
            Log { content: cut }
        } else {
            Log { content: msg }
        }
    }

    /// The entry as a string of its own.
    pub fn as_string(&self) -> (r: String)
        ensures
            r@ == self.text(),
    {
        self.content.clone()
    }

    /// The text of the entry.
    pub fn get(&self) -> (r: &String)
        ensures
            r@ == self.text(),
    {
        &self.content
    }
}

/// The entries that were logged, the oldest first.
#[derive(Debug)]
pub struct LogQueue {
    content: Vec<Log>,
}

impl LogQueue {
    /// The texts of the entries, the oldest first.
    pub closed spec fn entries(self) -> Seq<Seq<char>> {
        Seq::new(self.content@.len(), |i: int| self.content@[i].text())
    }

    /// One more entry would bring the queue to its limit.
    pub open spec fn full(self) -> bool {
        self.entries().len() + 1 == LOG_MAX_QUEUE_SIZE
    }

    /// An empty queue.
    pub fn new() -> (r: Self)
        ensures
            r.entries() == Seq::<Seq<char>>::empty(),
    {
        let r = LogQueue { content: Vec::new() };
        assert(r.entries() =~= Seq::<Seq<char>>::empty());
        r
    }

    /// The number of entries.
    pub fn len(&self) -> (r: usize)
        ensures
            r == self.entries().len(),
    {
        self.content.len()
    }

    /// Tells whether one more entry would bring the queue to its limit.
    pub fn is_full(&self) -> (r: bool)
        ensures
            r == self.full(),
    {
        self.content.len() == LOG_MAX_QUEUE_SIZE - 1
    }

    /// Adds an entry at the end. A full queue takes no entry.
    pub fn push(&mut self, log: Log)
        requires
            !old(self).full(),
        ensures
            final(self).entries() == old(self).entries().push(log.text()),
    {
        self.content.push(log);
        assert(self.entries() =~= old(self).entries().push(log.text()));
    }

    /// Adds an entry at the end. A full queue takes no entry.
    pub fn append(&mut self, log: Log)
        requires
            !old(self).full(),
        ensures
            final(self).entries() == old(self).entries().push(log.text()),
    {
        self.push(log)
    }

    /// The text of the newest entry, or the empty text where there is none.
    pub fn last_text(&self) -> (r: String)
        ensures
            r@ == if self.entries().len() > 0 {
                self.entries().last()
            } else {
                Seq::<char>::empty()
            },
    {
        if self.content.len() > 0 {
            self.content[self.content.len() - 1].as_string()
        } else {
            String::new()
        }
    }
}

// ------------------------------------------------------------------------------------------------
// The log subsystem
//
/// The log subsystem: the queue and the levels that are switched on.
#[derive(Debug)]
pub struct LogSystem {
    queue: LogQueue,
    init: bool,
    release: bool,
    debug_log: bool,
    info_log: bool,
    warn_log: bool,
    trace_log: bool,
}

/// Why a level was not switched off.
#[derive(Debug, Clone, Copy, PartialEq, Eq, Structural)]
pub enum DisableRefused {
    /// Errors and fatal errors are always logged.
    AlwaysLogged,
    /// In a release build the level is switched off already and stays as it is.
    ReleaseMode,
}

impl LogSystem {
    /// The texts of the entries logged so far, the oldest first.
    pub closed spec fn entries(self) -> Seq<Seq<char>> {
        self.queue.entries()
    }

    /// The subsystem was initialized.
    pub closed spec fn initialized(self) -> bool {
        self.init
    }

    /// The subsystem belongs to a release build.
    pub closed spec fn in_release(self) -> bool {
        self.release
    }

    /// Entries of the level are taken. Errors and fatal errors always are.
    pub closed spec fn takes(self, level: Level) -> bool {
        match level {
            Level::FATAL => true,
            Level::ERROR => true,
            Level::WARN => self.warn_log,
            Level::INFO => self.info_log,
            Level::DEBUG => self.debug_log,
            Level::TRACE => self.trace_log,
        }
    }

    /// The subsystem can take one more entry.
    pub open spec fn ready(self) -> bool {
        self.initialized() && self.entries().len() + 1 != LOG_MAX_QUEUE_SIZE
    }

    /// A subsystem with an empty queue and every level switched on, not yet
    /// initialized.
    pub fn new(release: bool) -> (r: Self)
        ensures
            !r.initialized(),
            r.in_release() == release,
            r.entries() == Seq::<Seq<char>>::empty(),
            forall|level: Level| r.takes(level),
    {
        LogSystem {
            queue: LogQueue::new(),
            init: false,
            release,
            debug_log: true,
            info_log: true,
            warn_log: true,
            trace_log: true,
        }
    }

    /// Initializes the subsystem. In a release build debugging and information
    /// entries are switched off. The first entry, a trace, says that the subsystem
    /// has started. What is handed back is what the terminal is to show.
    pub fn initialize(&mut self, secs: u64, subsec_nanos: u32) -> (shown: (String, Color))
        requires
            old(self).entries().len() + 1 != LOG_MAX_QUEUE_SIZE,
        ensures
            final(self).initialized(),
            final(self).in_release() == old(self).in_release(),
            final(self).takes(Level::WARN) == old(self).takes(Level::WARN),
            final(self).takes(Level::TRACE) == old(self).takes(Level::TRACE),
            final(self).takes(Level::DEBUG) == (old(self).takes(Level::DEBUG) && !old(
                self,
            ).in_release()),
            final(self).takes(Level::INFO) == (old(self).takes(Level::INFO) && !old(
                self,
            ).in_release()),
            final(self).entries() == if old(self).takes(Level::TRACE) {
                old(self).entries().push(
                    log_content(
                        Level::TRACE,
                        "Start the log subsystem"@,
                        secs as nat,
                        subsec_nanos as nat,
                    ),
                )
            } else {
                old(self).entries()
            },
            shown.0@ == if final(self).entries().len() > 0 {
                final(self).entries().last()
            } else {
                Seq::<char>::empty()
            },
            shown.1 == Color::Magenta,
    {
        if self.release {
            self.debug_log = false;
            self.info_log = false;
        }
        self.init = true;
        self.push_log(Level::TRACE, "Start the log subsystem", secs, subsec_nanos)
    }

    /// Tells whether the subsystem was initialized.
    pub fn is_init(&self) -> (r: bool)
        ensures
            r == self.initialized(),
    {
        self.init
    }

    /// Tells whether entries of a level are taken.
    pub fn is_enabled(&self, level: Level) -> (r: bool)
        ensures
            r == self.takes(level),
    {
        match level {
            Level::FATAL => true,
            Level::ERROR => true,
            Level::WARN => self.warn_log,
            Level::INFO => self.info_log,
            Level::DEBUG => self.debug_log,
            Level::TRACE => self.trace_log,
        }
    }

    /// Tells whether one more entry would bring the queue to its limit.
    pub fn is_full(&self) -> (r: bool)
        ensures
            r == (self.entries().len() + 1 == LOG_MAX_QUEUE_SIZE),
    {
        self.queue.is_full()
    }

    /// Tells whether the subsystem can take one more entry.
    pub fn is_ready(&self) -> (r: bool)
        ensures
            r == self.ready(),
    {
        self.init && !self.queue.is_full()
    }

    /// Logs a message at a level, after the program has run for `secs` seconds
    /// and `subsec_nanos` nanoseconds. The entry is added where the level is
    /// switched on. What is handed back is what the terminal is to show: the
    /// newest entry of the queue and the color of the level.
    pub fn push_log(&mut self, level: Level, msg: &str, secs: u64, subsec_nanos: u32) -> (shown: (
        String,
        Color,
    ))
        requires
            old(self).ready(),
        ensures
            final(self).initialized(),
            final(self).in_release() == old(self).in_release(),
            forall|l: Level| final(self).takes(l) == old(self).takes(l),
            final(self).entries() == if old(self).takes(level) {
                old(self).entries().push(
                    log_content(level, msg@, secs as nat, subsec_nanos as nat),
                )
            } else {
                old(self).entries()
            },
            shown.0@ == if final(self).entries().len() > 0 {
                final(self).entries().last()
            } else {
                Seq::<char>::empty()
            },
            shown.1 == level_color(level),
    {
        if self.is_enabled(level) {
            self.queue.push(Log::new(level, msg, secs, subsec_nanos));
        }
        (self.queue.last_text(), color_of(level))
    }

    /// Switches a level off. Errors and fatal errors cannot be switched off, nor,
    /// in a release build, debugging and tracing; the refusal says which.
    pub fn disable(&mut self, level: Level) -> (r: Result<(), DisableRefused>)
        ensures
            final(self).initialized() == old(self).initialized(),
            final(self).in_release() == old(self).in_release(),
            final(self).entries() == old(self).entries(),
            forall|l: Level| l != level ==> final(self).takes(l) == old(self).takes(l),
            match level {
                Level::FATAL => r == Err::<(), _>(DisableRefused::AlwaysLogged),
                Level::ERROR => r == Err::<(), _>(DisableRefused::AlwaysLogged),
                Level::WARN => r is Ok,
                Level::INFO => r is Ok,
                _ => if old(self).in_release() {
                    r == Err::<(), _>(DisableRefused::ReleaseMode)
                } else {
                    r is Ok
                },
            },
            r is Ok ==> !final(self).takes(level),
            r is Err ==> final(self).takes(level) == old(self).takes(level),
    {
        match level {
            Level::FATAL => Err(DisableRefused::AlwaysLogged),
            Level::ERROR => Err(DisableRefused::AlwaysLogged),
            Level::WARN => {
                self.warn_log = false;
                Ok(())
            },
            Level::INFO => {
                self.info_log = false;
                Ok(())
            },
            Level::DEBUG => {
                if self.release {
                    Err(DisableRefused::ReleaseMode)
                } else {
                    self.debug_log = false;
                    Ok(())
                }
            },
            Level::TRACE => {
                if self.release {
                    Err(DisableRefused::ReleaseMode)
                } else {
                    self.trace_log = false;
                    Ok(())
                }
            },
        }
    }
}

// ------------------------------------------------------------------------------------------------
// Messages with arguments
//
/// A pair of brackets, the place of an argument, stands at position `i` of the message.
pub open spec fn bracket_at(message: Seq<char>, i: int) -> bool {
    0 <= i && i + 1 < message.len() && message[i] == '{' && message[i + 1] == '}'
}

/// The slices of a message from `scan` on, where the slice under way started at
/// `start`: the text before each pair of brackets, the pair itself, and at last
/// the text after the last pair.
pub open spec fn slices_from(message: Seq<char>, scan: int, start: int) -> Seq<Seq<char>>
    decreases message.len() - scan,
{
    if scan >= message.len() {
        seq![message.subrange(start, message.len() as int)]
    } else if bracket_at(message, scan) {
        seq![message.subrange(start, scan), "{}"@] + slices_from(message, scan + 2, scan + 2)
    } else {
        slices_from(message, scan + 1, start)
    }
}

/// The number of pairs of brackets in a message from `scan` on.
pub open spec fn brackets_from(message: Seq<char>, scan: int) -> nat
    decreases message.len() - scan,
{
    if scan >= message.len() {
        0
    } else if bracket_at(message, scan) {
        1 + brackets_from(message, scan + 2)
    } else {
        brackets_from(message, scan + 1)
    }
}

/// The message from `scan` on with its pairs of brackets replaced by the
/// arguments, of which `used` are spent: each pair takes the next argument, and a
/// pair for which no argument is left is dropped.
pub open spec fn filled_from(message: Seq<char>, args: Seq<Seq<char>>, scan: int, used: int)
    -> Seq<char>
    decreases message.len() - scan,
{
    if scan >= message.len() {
        Seq::empty()
    } else if bracket_at(message, scan) {
        (if 0 <= used < args.len() {
            args[used]
        } else {
            Seq::empty()
        }) + filled_from(message, args, scan + 2, used + 1)
    } else {
        seq![message[scan]] + filled_from(message, args, scan + 1, used)
    }
}

/// The texts of a list of arguments.
pub open spec fn texts_of(args: Seq<&str>) -> Seq<Seq<char>> {
    Seq::new(args.len(), |i: int| args[i]@)
}

/// A message with its pairs of brackets replaced by the arguments.
pub open spec fn filled(message: Seq<char>, args: Seq<Seq<char>>) -> Seq<char> {
    filled_from(message, args, 0, 0)
}

/// Slices a message at its pairs of brackets and counts the pairs.
pub fn slice_brackets_str(msg: &str) -> (r: (Vec<String>, usize))
    ensures
        r.0@.len() == slices_from(msg@, 0, 0).len(),
        forall|k: int| 0 <= k < r.0@.len() ==> (#[trigger] r.0@[k])@ == slices_from(msg@, 0, 0)[k],
        r.1 == brackets_from(msg@, 0),
{
    let chars = chars_of(msg);
    let mut slices: Vec<String> = Vec::new();
    let mut start: usize = 0;
    let mut founding: usize = 0;
    let mut index: usize = 0;
    while index < chars.len()
        invariant
            start <= index <= chars.len(),
            chars@ == msg@,
            founding <= index,
            founding + brackets_from(chars@, index as int) == brackets_from(chars@, 0),
            Seq::new(slices@.len(), |k: int| slices@[k]@) + slices_from(
                chars@,
                index as int,
                start as int,
            ) == slices_from(chars@, 0, 0),
        decreases chars.len() - index,
    {
        if chars[index] == '{' && index + 1 < chars.len() && chars[index + 1] == '}' {
            let ghost before = Seq::new(slices@.len(), |k: int| slices@[k]@);
            let mut slice = String::new();
            append_chars(&mut slice, &chars, start, index);
            assert(slice@ =~= chars@.subrange(start as int, index as int));
            slices.push(slice);
            slices.push(String::from_str("{}"));
            proof {
                assert(bracket_at(chars@, index as int));
                assert(Seq::new(slices@.len(), |k: int| slices@[k]@) =~= before + seq![
                    chars@.subrange(start as int, index as int),
                    "{}"@,
                ]);
                assert(Seq::new(slices@.len(), |k: int| slices@[k]@) + slices_from(
                    chars@,
                    index + 2,
                    index + 2,
                ) =~= before + slices_from(chars@, index as int, start as int));
            }
            start = index + 2;
            index = index + 2;
            founding = founding + 1;
        } else {
            assert(!bracket_at(chars@, index as int));
            index = index + 1;
        }
    }
    let ghost before = Seq::new(slices@.len(), |k: int| slices@[k]@);
    let mut slice = String::new();
    append_chars(&mut slice, &chars, start, chars.len());
    assert(slice@ =~= chars@.subrange(start as int, chars@.len() as int));
    slices.push(slice);
    proof {
        assert(Seq::new(slices@.len(), |k: int| slices@[k]@) =~= before + slices_from(
            chars@,
            index as int,
            start as int,
        ));
        assert forall|k: int| 0 <= k < slices@.len() implies (#[trigger] slices@[k])@
            == slices_from(msg@, 0, 0)[k] by {
            assert(Seq::new(slices@.len(), |k: int| slices@[k]@)[k] == slices@[k]@);
        }
    }
    (slices, founding)
}

/// Counts the pairs of brackets of a message.
pub fn count_brackets(msg: &str) -> (r: usize)
    ensures
        r == brackets_from(msg@, 0),
{
    slice_brackets_str(msg).1
}

/// Puts the arguments into a message: each pair of brackets is replaced by the
/// next argument; a pair for which no argument is left is dropped, an argument
/// for which no pair is left is not used.
pub fn validate_msg(msg: &str, args: &[&str]) -> (r: String)
    ensures
        r@ == filled(msg@, texts_of(args@)),
{
    let chars = chars_of(msg);
    let ghost texts = texts_of(args@);
    let mut f_msg = String::new();
    let mut iter_brk: usize = 0;
    let mut index: usize = 0;
    while index < chars.len()
        invariant
            index <= chars.len(),
            iter_brk <= index,
            chars@ == msg@,
            texts == texts_of(args@),
            f_msg@ + filled_from(chars@, texts, index as int, iter_brk as int) == filled_from(
                chars@,
                texts,
                0,
                0,
            ),
        decreases chars.len() - index,
    {
        let ghost before = f_msg@;
        if chars[index] == '{' && index + 1 < chars.len() && chars[index + 1] == '}' {
            assert(bracket_at(chars@, index as int));
            if iter_brk < args.len() {
                f_msg.append(args[iter_brk]);
            }
            assert(f_msg@ + filled_from(chars@, texts, index + 2, iter_brk + 1) =~= before
                + filled_from(chars@, texts, index as int, iter_brk as int));
            iter_brk = iter_brk + 1;
            index = index + 2;
        } else {
            assert(!bracket_at(chars@, index as int));
            append_chars(&mut f_msg, &chars, index, index + 1);
            assert(chars@.subrange(index as int, index + 1) =~= seq![chars@[index as int]]);
            assert(f_msg@ + filled_from(chars@, texts, index + 1, iter_brk as int) =~= before
                + filled_from(chars@, texts, index as int, iter_brk as int));
            index = index + 1;
        }
    }
    assert(f_msg@ =~= filled_from(chars@, texts, 0, 0));
    f_msg
}

/// The text of the fatal entry for a message that was given more arguments than
/// it has pairs of brackets.
pub open spec fn mismatch_text(message: Seq<char>, brackets: nat, args: nat) -> Seq<char> {
    "the message:[ "@ + message + " ] contains "@ + decimal(brackets)
        + " format bracket(s) but you have passed "@ + decimal(args) + " arguments "@
}

/// Holds the number of arguments against the pairs of brackets of a message. Where
/// there are more arguments than pairs, the text of the fatal entry is handed back.
pub fn check_arguments(msg: &str, args: &[&str]) -> (r: Option<String>)
    ensures
        match r {
            Some(text) => args@.len() > brackets_from(msg@, 0) && text@ == mismatch_text(
                msg@,
                brackets_from(msg@, 0),
                args@.len(),
            ),
            None => args@.len() <= brackets_from(msg@, 0),
        },
{
    let nb_brackets = count_brackets(msg);
    if args.len() > nb_brackets {
        let mut text = String::from_str("the message:[ ");
        text.append(msg);
        text.append(" ] contains ");
        append_decimal(&mut text, nb_brackets as u64);
        text.append(" format bracket(s) but you have passed ");
        append_decimal(&mut text, args.len() as u64);
        text.append(" arguments ");
        Some(text)
    } else {
        None
    }
}

// ------------------------------------------------------------------------------------------------
// Entry points
//
/// Initializes a log subsystem; see `LogSystem::initialize`.
pub fn init(sys: &mut LogSystem, secs: u64, subsec_nanos: u32) -> (shown: (String, Color))
    requires
        old(sys).entries().len() + 1 != LOG_MAX_QUEUE_SIZE,
    ensures
        final(sys).initialized(),
        final(sys).in_release() == old(sys).in_release(),
        final(sys).entries() == if old(sys).takes(Level::TRACE) {
            old(sys).entries().push(
                log_content(
                    Level::TRACE,
                    "Start the log subsystem"@,
                    secs as nat,
                    subsec_nanos as nat,
                ),
            )
        } else {
            old(sys).entries()
        },
        shown.0@ == if final(sys).entries().len() > 0 {
            final(sys).entries().last()
        } else {
            Seq::<char>::empty()
        },
        shown.1 == Color::Magenta,
{
    sys.initialize(secs, subsec_nanos)
}

/// Initializes a log subsystem; see `LogSystem::initialize`.
pub fn init_logging(sys: &mut LogSystem, secs: u64, subsec_nanos: u32) -> (shown: (String, Color))
    requires
        old(sys).entries().len() + 1 != LOG_MAX_QUEUE_SIZE,
    ensures
        final(sys).initialized(),
        final(sys).in_release() == old(sys).in_release(),
        final(sys).entries() == if old(sys).takes(Level::TRACE) {
            old(sys).entries().push(
                log_content(
                    Level::TRACE,
                    "Start the log subsystem"@,
                    secs as nat,
                    subsec_nanos as nat,
                ),
            )
        } else {
            old(sys).entries()
        },
        shown.1 == Color::Magenta,
{
    sys.initialize(secs, subsec_nanos)
}

/// Tells whether a log subsystem was initialized.
pub fn is_init(sys: &LogSystem) -> (r: bool)
    ensures
        r == sys.initialized(),
{
    sys.is_init()
}

/// Logs a message at a level; see `LogSystem::push_log`.
pub fn push_log(sys: &mut LogSystem, msg: &str, lvl: Level, secs: u64, subsec_nanos: u32) -> (shown:
    (String, Color))
    requires
        old(sys).ready(),
    ensures
        final(sys).initialized(),
        final(sys).in_release() == old(sys).in_release(),
        forall|l: Level| final(sys).takes(l) == old(sys).takes(l),
        final(sys).entries() == if old(sys).takes(lvl) {
            old(sys).entries().push(log_content(lvl, msg@, secs as nat, subsec_nanos as nat))
        } else {
            old(sys).entries()
        },
        shown.1 == level_color(lvl),
{
    sys.push_log(lvl, msg, secs, subsec_nanos)
}

/// What became of a message that was sent to the log.
#[derive(Debug)]
pub struct Sent {
    /// What the terminal is to show.
    pub shown: String,
    /// The color to show it in.
    pub color: Color,
    /// The message was fatal: the logging ends, and with it the engine.
    pub shutdown: bool,
}

/// Sends a message to the log at a level. Errors and fatal errors are always
/// logged, the other levels where they are switched on. After a fatal error the
/// caller shuts the engine down.
pub fn send_log(sys: &mut LogSystem, msg: &str, lvl: Level, secs: u64, subsec_nanos: u32) -> (r:
    Sent)
    requires
        old(sys).ready(),
    ensures
        final(sys).initialized(),
        final(sys).in_release() == old(sys).in_release(),
        forall|l: Level| final(sys).takes(l) == old(sys).takes(l),
        final(sys).entries() == if old(sys).takes(lvl) {
            old(sys).entries().push(log_content(lvl, msg@, secs as nat, subsec_nanos as nat))
        } else {
            old(sys).entries()
        },
        r.color == level_color(lvl),
        r.shutdown == (lvl == Level::FATAL),
{
    let (shown, color) = sys.push_log(lvl, msg, secs, subsec_nanos);
    let shutdown = match lvl {
        Level::FATAL => true,
        _ => false,
    };
    Sent { shown, color, shutdown }
}

/// Switches a level off; see `LogSystem::disable`. A refusal is for the caller to
/// log as an error.
pub fn disable_log_lvl(sys: &mut LogSystem, level: Level) -> (r: Result<(), DisableRefused>)
    ensures
        final(sys).initialized() == old(sys).initialized(),
        final(sys).in_release() == old(sys).in_release(),
        final(sys).entries() == old(sys).entries(),
        forall|l: Level| l != level ==> final(sys).takes(l) == old(sys).takes(l),
        r is Ok <==> (level == Level::WARN || level == Level::INFO || ((level == Level::DEBUG
            || level == Level::TRACE) && !old(sys).in_release())),
        r is Ok ==> !final(sys).takes(level),
        r is Err ==> final(sys).takes(level) == old(sys).takes(level),
{
    sys.disable(level)
}

/// The text of the entry for a failed assertion.
pub open spec fn assertion_text(expr: Seq<char>, message: Seq<char>, file: Seq<char>, line: nat)
    -> Seq<char> {
    "ASSERTION FAILED: "@ + expr + " in file "@ + file + " at line "@ + decimal(line)
        + " Reason: "@ + message + " "@
}

/// Logs a failed assertion as a fatal error.
pub fn assertions_failures(
    sys: &mut LogSystem,
    expr: &str,
    message: &str,
    file: &str,
    line: u32,
    secs: u64,
    subsec_nanos: u32,
) -> (r: Sent)
    requires
        old(sys).ready(),
    ensures
        final(sys).entries() == old(sys).entries().push(
            log_content(
                Level::FATAL,
                assertion_text(expr@, message@, file@, line as nat),
                secs as nat,
                subsec_nanos as nat,
            ),
        ),
        r.shutdown,
        r.color == Color::Red,
{
    let mut msg = String::from_str("ASSERTION FAILED: ");
    msg.append(expr);
    msg.append(" in file ");
    msg.append(file);
    msg.append(" at line ");
    append_decimal(&mut msg, line as u64);
    msg.append(" Reason: ");
    msg.append(message);
    msg.append(" ");
    send_log(sys, msg.as_str(), Level::FATAL, secs, subsec_nanos)
}

} // verus!
