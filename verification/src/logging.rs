use vstd::prelude::*;
use vstd::string::StringExecFns;
use log::SetLoggerError;

verus! {

// ---------------------------------------------------------------------------
// Levels
// ---------------------------------------------------------------------------

/// How much the game writes to its logs.
#[derive(Debug, Clone, Copy, PartialEq, Eq, Structural)]
pub enum LogLevel {
    /// Warnings and errors only.
    Important,
    Info,
    Debug,
    Trace,
}

/// The severity of one log record, from the most severe to the most verbose.
#[derive(Debug, Clone, Copy, PartialEq, Eq, Structural)]
pub enum Severity {
    Error,
    Warn,
    Info,
    Debug,
    Trace,
}

/// Position of a severity on the verbosity scale: errors are the least verbose.
pub open spec fn severity_rank(s: Severity) -> int {
    match s {
        Severity::Error => 1,
        Severity::Warn => 2,
        Severity::Info => 3,
        Severity::Debug => 4,
        Severity::Trace => 5,
    }
}

/// The most verbose severity that a log level lets through.
pub open spec fn spec_threshold(level: LogLevel) -> Severity {
    match level {
        LogLevel::Important => Severity::Warn,
        LogLevel::Info => Severity::Info,
        LogLevel::Debug => Severity::Debug,
        LogLevel::Trace => Severity::Trace,
    }
}

/// Position of a log level on the same scale as `severity_rank`.
pub open spec fn level_rank(level: LogLevel) -> int {
    severity_rank(spec_threshold(level))
}

/// A record of severity `s` is written under `level`.
pub open spec fn spec_enabled(level: LogLevel, s: Severity) -> bool {
    severity_rank(s) <= level_rank(level)
}

impl Severity {
    /// Numeric rank of the severity (1 for errors up to 5 for trace).
    pub fn rank(self) -> (r: u8)
        ensures
            r == severity_rank(self),
    {
        match self {
            Severity::Error => 1,
            Severity::Warn => 2,
            Severity::Info => 3,
            Severity::Debug => 4,
            Severity::Trace => 5,
        }
    }

    /// The name the logging framework prints for this severity.
    pub fn label(self) -> (r: &'static str)
        ensures
            r@ == severity_label(self),
    {
        proof {
            reveal_strlit("ERROR");
            reveal_strlit("WARN");
            reveal_strlit("INFO");
            reveal_strlit("DEBUG");
            reveal_strlit("TRACE");
        }
        match self {
            Severity::Error => "ERROR",
            Severity::Warn => "WARN",
            Severity::Info => "INFO",
            Severity::Debug => "DEBUG",
            Severity::Trace => "TRACE",
        }
    }

    /// How the severity's label is painted on the terminal.
    pub fn style(self) -> (r: TextStyle)
        ensures
            r == severity_style(self),
    {
        match self {
            Severity::Error => TextStyle { hue: Hue::Red, italic: false },
            Severity::Warn => TextStyle { hue: Hue::Yellow, italic: false },
            Severity::Info => TextStyle { hue: Hue::Green, italic: false },
            Severity::Debug => TextStyle { hue: Hue::BrightBlue, italic: false },
            Severity::Trace => TextStyle { hue: Hue::White, italic: true },
        }
    }
}

/// Upper-case name of a severity.
pub open spec fn severity_label(s: Severity) -> Seq<char> {
    match s {
        Severity::Error => seq!['E', 'R', 'R', 'O', 'R'],
        Severity::Warn => seq!['W', 'A', 'R', 'N'],
        Severity::Info => seq!['I', 'N', 'F', 'O'],
        Severity::Debug => seq!['D', 'E', 'B', 'U', 'G'],
        Severity::Trace => seq!['T', 'R', 'A', 'C', 'E'],
    }
}

impl LogLevel {
    /// The most verbose severity written under this level; also the maximum
    /// level handed to the logging framework.
    pub fn threshold(self) -> (r: Severity)
        ensures
            r == spec_threshold(self),
    {
        match self {
            LogLevel::Important => Severity::Warn,
            LogLevel::Info => Severity::Info,
            LogLevel::Debug => Severity::Debug,
            LogLevel::Trace => Severity::Trace,
        }
    }
}

/// Whether a record of severity `s` is written under `level`.
pub fn is_enabled(level: LogLevel, s: Severity) -> (r: bool)
    ensures
        r == spec_enabled(level, s),
{
    s.rank() <= level.threshold().rank()
}

// ---------------------------------------------------------------------------
// Terminal styling
// ---------------------------------------------------------------------------

/// Foreground colours used by the logger.
#[derive(Debug, Clone, Copy, PartialEq, Eq, Structural)]
pub enum Hue {
    Red,
    Yellow,
    Green,
    BrightBlue,
    White,
    Blue,
}

/// A colour and whether the text is set in italics.
#[derive(Debug, Clone, Copy, PartialEq, Eq, Structural)]
pub struct TextStyle {
    pub hue: Hue,
    pub italic: bool,
}

/// Colour of each severity's label.
pub open spec fn severity_style(s: Severity) -> TextStyle {
    match s {
        Severity::Error => TextStyle { hue: Hue::Red, italic: false },
        Severity::Warn => TextStyle { hue: Hue::Yellow, italic: false },
        Severity::Info => TextStyle { hue: Hue::Green, italic: false },
        Severity::Debug => TextStyle { hue: Hue::BrightBlue, italic: false },
        Severity::Trace => TextStyle { hue: Hue::White, italic: true },
    }
}

/// Style of the time stamp: blue italics.
pub fn timestamp_style() -> (r: TextStyle)
    ensures
        r == (TextStyle { hue: Hue::Blue, italic: true }),
{
    TextStyle { hue: Hue::Blue, italic: true }
}


// ---------------------------------------------------------------------------
// Log lines
// ---------------------------------------------------------------------------

/// `[<level>] <time> | <target>: <message>` followed by a line break.
pub open spec fn spec_log_line(
    level: Seq<char>,
    time: Seq<char>,
    target: Seq<char>,
    message: Seq<char>,
) -> Seq<char> {
    seq!['['] + level + seq![']', ' '] + time + seq![' ', '|', ' '] + target + seq![':', ' ']
        + message + seq!['\n']
}

/// Builds the text of one log line from its (already painted) parts.
pub fn log_line(level_text: &str, time_text: &str, target: &str, message: &str) -> (r: String)
    ensures
        r@ == spec_log_line(level_text@, time_text@, target@, message@),
{
    proof {
        reveal_strlit("[");
        reveal_strlit("] ");
        reveal_strlit(" | ");
        reveal_strlit(": ");
        reveal_strlit("\n");
    }
    let mut line = String::new();
    line.append("[");
    line.append(level_text);
    line.append("] ");
    line.append(time_text);
    line.append(" | ");
    line.append(target);
    line.append(": ");
    line.append(message);
    line.append("\n");
    line
}

// ---------------------------------------------------------------------------
// The logger's decisions
// ---------------------------------------------------------------------------

/// What the logger knows about itself: its level, whether it has a log file,
/// and whether writing to that file has failed before.
pub struct LoggerView {
    pub level: LogLevel,
    pub has_output: bool,
    pub write_fail: bool,
}

/// The decision part of the game's logger. The log file itself, the clock and
/// the terminal are driven by the caller, which follows the actions returned here.
pub struct Logger {
    level: LogLevel,
    has_output: bool,
    write_fail: bool,
}

impl View for Logger {
    type V = LoggerView;

    closed spec fn view(&self) -> LoggerView {
        LoggerView { level: self.level, has_output: self.has_output, write_fail: self.write_fail }
    }
}

/// What to do with one log record.
pub enum LogAction {
    /// The record is above the logger's level: drop it.
    Skip,
    /// Print `line` on the terminal and, if `write_to_file`, append it to the log file.
    Emit { line: String, write_to_file: bool },
}

/// A record of severity `s` is appended to the log file.
pub open spec fn spec_writes_to_file(v: LoggerView, s: Severity) -> bool {
    spec_enabled(v.level, s) && v.has_output && !v.write_fail
}

/// The log file is flushed.
pub open spec fn spec_flushes(v: LoggerView) -> bool {
    v.has_output && !v.write_fail
}

impl Logger {
    /// A logger at `level`; `has_output` tells whether its log file could be opened.
    pub fn new(level: LogLevel, has_output: bool) -> (r: Logger)
        ensures
            r@ == (LoggerView { level, has_output, write_fail: false }),
    {
        Logger { level, has_output, write_fail: false }
    }

    /// Whether records of severity `s` are logged.
    pub fn enabled(&self, s: Severity) -> (r: bool)
        ensures
            r == spec_enabled(self@.level, s),
    {
        is_enabled(self.level, s)
    }

    /// Decides what happens to a record of severity `s`; `level_text` and
    /// `time_text` are the painted severity label and time stamp.
    pub fn log(
        &self,
        s: Severity,
        level_text: &str,
        time_text: &str,
        target: &str,
        message: &str,
    ) -> (r: LogAction)
        ensures
            !spec_enabled(self@.level, s) ==> r is Skip,
            spec_enabled(self@.level, s) ==> (r matches LogAction::Emit { line, write_to_file }
                && line@ == spec_log_line(level_text@, time_text@, target@, message@)
                && write_to_file == spec_writes_to_file(self@, s)),
            spec_enabled(self@.level, s) && self@.has_output && !self@.write_fail ==> (r matches LogAction::Emit { line, write_to_file } && write_to_file),
    {
        if self.enabled(s) {
            let line = log_line(level_text, time_text, target, message);
            LogAction::Emit { line, write_to_file: self.has_output && !self.write_fail }
        } else {
            LogAction::Skip
        }
    }

    /// Records that appending to the log file failed: the logger keeps to the
    /// terminal from now on.
    pub fn record_write_failure(&mut self)
        ensures
            final(self)@ == (LoggerView { write_fail: true, ..old(self)@ }),
    {
        self.write_fail = true;
    }

    /// Whether a flush of the logger flushes the log file.
    pub fn flush(&self) -> (r: bool)
        ensures
            r == spec_flushes(self@),
    {
        self.has_output && !self.write_fail
    }
}

// ---------------------------------------------------------------------------
// Installing the logger
// ---------------------------------------------------------------------------

/// Makes `log::SetLoggerError` (the error of registering a second logger) usable in verified code; its values are opaque.
#[verifier::external_type_specification]
#[verifier::external_body]
pub struct ExSetLoggerError(SetLoggerError);

/// Completes installing the game's logger: `registered` is what registering the
/// global logger gave back. When it succeeded, the result is the maximum level
/// to hand to the logging framework, the threshold of `level`; when it failed,
/// the error comes back and no maximum level is to be set.
pub fn init_logger(registered: Result<(), SetLoggerError>, level: LogLevel) -> (r: Result<
    Severity,
    SetLoggerError,
>)
    ensures
        r == (match registered {
            Ok(_) => Ok(spec_threshold(level)),
            Err(e) => Err::<Severity, SetLoggerError>(e),
        }),
{
    match registered {
        Ok(()) => Ok(level.threshold()),
        Err(e) => Err(e),
    }
}

/// A more verbose level installs a maximum level at least as verbose.
pub proof fn lemma_installed_max_level_monotone(a: LogLevel, b: LogLevel)
    requires
        level_rank(a) <= level_rank(b),
    ensures
        severity_rank(spec_threshold(a)) <= severity_rank(spec_threshold(b)),
{
}

// ---------------------------------------------------------------------------
// Moving an old log file out of the way
// ---------------------------------------------------------------------------

/// The decimal digit `d` (for `d < 10`).
pub open spec fn digit_char(d: nat) -> char {
    seq!['0', '1', '2', '3', '4', '5', '6', '7', '8', '9'][d as int]
}

/// Decimal notation of `n`, without leading zeros.
pub open spec fn decimal(n: nat) -> Seq<char>
    decreases n,
{
    if n < 10 {
        seq![digit_char(n)]
    } else {
        decimal(n / 10).push(digit_char(n % 10))
    }
}

/// The name that the log file `<stem>.<extension>` gets when it is moved
/// aside as old log number `counter`: `<stem>.old.<counter>.<extension>`.
pub open spec fn relocated_name(stem: Seq<char>, extension: Seq<char>, counter: nat) -> Seq<char> {
    stem + seq!['.', 'o', 'l', 'd', '.'] + decimal(counter) + seq!['.'] + extension
}

fn digit_text(d: usize) -> (r: &'static str)
    requires
        d < 10,
    ensures
        r@ == seq![digit_char(d as nat)],
{
    proof {
        reveal_strlit("0");
        reveal_strlit("1");
        reveal_strlit("2");
        reveal_strlit("3");
        reveal_strlit("4");
        reveal_strlit("5");
        reveal_strlit("6");
        reveal_strlit("7");
        reveal_strlit("8");
        reveal_strlit("9");
    }
    match d {
        0 => "0",
        1 => "1",
        2 => "2",
        3 => "3",
        4 => "4",
        5 => "5",
        6 => "6",
        7 => "7",
        8 => "8",
        _ => "9",
    }
}

/// Appends the decimal notation of `n` to `text`.
pub fn push_decimal(text: &mut String, n: usize)
    ensures
        final(text)@ == old(text)@ + decimal(n as nat),
    decreases n,
{
    if n < 10 {
        text.append(digit_text(n));
    } else {
        push_decimal(text, n / 10);
        text.append(digit_text(n % 10));
        assert(decimal(n as nat) == decimal((n / 10) as nat).push(digit_char((n % 10) as nat)));
        assert(old(text)@ + decimal(n as nat) =~= old(text)@ + decimal((n / 10) as nat) + seq![
            digit_char((n % 10) as nat),
        ]);
    }
}

/// Extension of a path as `std::path::Path::extension` finds it.
pub uninterp spec fn path_extension(path: Seq<char>) -> Option<Seq<char>>;

/// A path with its extension removed, as `std::path::Path::with_extension("")` gives it.
pub uninterp spec fn path_without_extension(path: Seq<char>) -> Seq<char>;

/// Calls `std::path::Path::extension` on `path`. The extension of a `&str`
/// path is itself valid UTF-8, so it is handed back whole; the contract only
/// names the result.
#[verifier::external_body]
fn extension_of(path: &str) -> (r: Option<String>)
    ensures
        r is Some <==> path_extension(path@) is Some,
        r matches Some(e) ==> e@ == path_extension(path@)->0,
{
    let ext = std::path::Path::new(path).extension()?;
    Some(ext.to_string_lossy().into_owned())
}

/// Calls `std::path::Path::with_extension` with an empty extension, which
/// removes the extension of `path`; the contract only names the result.
#[verifier::external_body]
fn without_extension(path: &str) -> (r: String)
    ensures
        r@ == path_without_extension(path@),
{
    std::path::Path::new(path).with_extension("").to_string_lossy().into_owned()
}

/// The extension of `path`, or nothing when it has none.
pub open spec fn extension_or_empty(path: Seq<char>) -> Seq<char> {
    match path_extension(path) {
        Some(e) => e,
        None => Seq::empty(),
    }
}

/// Search for a free name under which an existing log file is kept: the
/// candidates `<stem>.old.1.<ext>`, `<stem>.old.2.<ext>`, ... are tried in turn.
pub struct LogRelocation {
    stem: String,
    extension: String,
    counter: usize,
}

/// What the caller does next while moving an old log file aside.
pub enum RelocationStep {
    /// Check whether this path exists, and report the answer to `next`.
    Probe(String),
    /// Rename the log file to this path; the search is over.
    Rename(String),
    /// Every number is taken: keep appending to the current log file.
    GiveUp,
}

impl LogRelocation {
    pub closed spec fn stem(&self) -> Seq<char> {
        self.stem@
    }

    pub closed spec fn extension(&self) -> Seq<char> {
        self.extension@
    }

    pub closed spec fn counter(&self) -> nat {
        self.counter as nat
    }

    /// The candidate name this search is at.
    pub open spec fn current(&self) -> Seq<char> {
        relocated_name(self.stem(), self.extension(), self.counter())
    }

    /// Starts the search for the log file at `output`, at number 1.
    pub fn new(output: &str) -> (r: LogRelocation)
        ensures
            r.stem() == path_without_extension(output@),
            r.extension() == extension_or_empty(output@),
            r.counter() == 1,
    {
        let extension = match extension_of(output) {
            Some(e) => e,
            None => String::new(),
        };
        LogRelocation { stem: without_extension(output), extension, counter: 1 }
    }

    /// The candidate name this search is at.
    pub fn candidate(&self) -> (r: String)
        ensures
            r@ == self.current(),
    {
        proof {
            reveal_strlit(".old.");
            reveal_strlit(".");
        }
        let mut name = String::new();
        name.append(self.stem.as_str());
        name.append(".old.");
        push_decimal(&mut name, self.counter);
        name.append(".");
        name.append(self.extension.as_str());
        assert(name@ =~= self.current());
        name
    }

    /// Advances the search, given whether the current candidate already exists.
    pub fn next(&mut self, candidate_exists: bool) -> (step: RelocationStep)
        ensures
            final(self).stem() == old(self).stem(),
            final(self).extension() == old(self).extension(),
            !candidate_exists ==> final(self).counter() == old(self).counter() && (
            step matches RelocationStep::Rename(p) && p@ == old(self).current()),
            candidate_exists && old(self).counter() + 1 < usize::MAX ==> final(self).counter()
                == old(self).counter() + 1 && (step matches RelocationStep::Probe(p) && p@
                == final(self).current()),
            candidate_exists && old(self).counter() + 1 >= usize::MAX ==> final(self).counter()
                == old(self).counter() && step is GiveUp,
    {
        if !candidate_exists {
            RelocationStep::Rename(self.candidate())
        } else if self.counter < usize::MAX - 1 {
            self.counter = self.counter + 1;
            RelocationStep::Probe(self.candidate())
        } else {
            RelocationStep::GiveUp
        }
    }
}

// ---------------------------------------------------------------------------
// Laws of the logger
// ---------------------------------------------------------------------------

/// Errors and warnings are logged whatever the level.
pub proof fn lemma_important_always_logged(level: LogLevel)
    ensures
        spec_enabled(level, Severity::Error),
        spec_enabled(level, Severity::Warn),
{
}

/// A more verbose level logs everything a less verbose one logs.
pub proof fn lemma_more_verbose_logs_more(a: LogLevel, b: LogLevel, s: Severity)
    requires
        level_rank(a) <= level_rank(b),
        spec_enabled(a, s),
    ensures
        spec_enabled(b, s),
{
}

/// Each level logs exactly the severities up to its threshold, which is the
/// maximum level that `init_logger` hands to the framework: the framework and
/// the installed logger let the same records through.
pub proof fn lemma_threshold_is_max_level(level: LogLevel, s: Severity)
    ensures
        spec_enabled(level, s) <==> severity_rank(s) <= severity_rank(spec_threshold(level)),
        spec_enabled(level, spec_threshold(level)),
{
}

/// A logger with a log file that has never failed to write appends every
/// record it lets through to the file, whatever its severity; it appends
/// nothing else.
pub proof fn lemma_enabled_records_reach_file(v: LoggerView, s: Severity)
    requires
        v.has_output,
        !v.write_fail,
    ensures
        spec_writes_to_file(v, s) <==> severity_rank(s) <= level_rank(v.level),
{
}

/// Once a write to the log file has failed, no record is written to the file
/// and no flush touches it; every enabled record still reaches the terminal.
pub proof fn lemma_write_failure_is_permanent(v: LoggerView, s: Severity)
    requires
        v.write_fail,
    ensures
        !spec_writes_to_file(v, s),
        !spec_flushes(v),
{
}

proof fn lemma_digit_injective(a: nat, b: nat)
    requires
        a < 10,
        b < 10,
        digit_char(a) == digit_char(b),
    ensures
        a == b,
{
    let digits = seq!['0', '1', '2', '3', '4', '5', '6', '7', '8', '9'];
    assert(digits[0] == '0' && digits[1] == '1' && digits[2] == '2' && digits[3] == '3'
        && digits[4] == '4' && digits[5] == '5' && digits[6] == '6' && digits[7] == '7'
        && digits[8] == '8' && digits[9] == '9');
}

proof fn lemma_decimal_len(n: nat)
    ensures
        decimal(n).len() >= 1,
        n >= 10 ==> decimal(n).len() >= 2,
    decreases n,
{
    if n >= 10 {
        lemma_decimal_len(n / 10);
    }
}

/// Different numbers have different decimal notations.
pub proof fn lemma_decimal_injective(n: nat, m: nat)
    requires
        decimal(n) == decimal(m),
    ensures
        n == m,
    decreases n,
{
    lemma_decimal_len(n);
    lemma_decimal_len(m);
    if n < 10 && m < 10 {
        assert(decimal(n)[0] == digit_char(n));
        assert(decimal(m)[0] == digit_char(m));
        lemma_digit_injective(n, m);
    } else if n >= 10 && m >= 10 {
        let dn = decimal(n);
        let dm = decimal(m);
        assert(dn.last() == digit_char(n % 10));
        assert(dm.last() == digit_char(m % 10));
        lemma_digit_injective(n % 10, m % 10);
        assert(dn.drop_last() =~= decimal(n / 10));
        assert(dm.drop_last() =~= decimal(m / 10));
        lemma_decimal_injective(n / 10, m / 10);
    } else {
        assert(decimal(n).len() != decimal(m).len());
    }
}

/// Every number gives a different name to move the old log file to, so the
/// search never tries a name twice.
pub proof fn lemma_relocated_names_distinct(
    stem: Seq<char>,
    extension: Seq<char>,
    n: nat,
    m: nat,
)
    requires
        n != m,
    ensures
        relocated_name(stem, extension, n) != relocated_name(stem, extension, m),
{
    if relocated_name(stem, extension, n) == relocated_name(stem, extension, m) {
        let prefix = stem + seq!['.', 'o', 'l', 'd', '.'];
        let dn = decimal(n);
        let dm = decimal(m);
        let suffix = seq!['.'] + extension;
        let a = prefix + dn + suffix;
        let b = prefix + dm + suffix;
        assert(relocated_name(stem, extension, n) =~= a);
        assert(relocated_name(stem, extension, m) =~= b);
        assert(dn.len() == dm.len());
        assert(dn =~= a.subrange(prefix.len() as int, (prefix.len() + dn.len()) as int));
        assert(dm =~= b.subrange(prefix.len() as int, (prefix.len() + dm.len()) as int));
        lemma_decimal_injective(n, m);
    }
}

} // verus!
