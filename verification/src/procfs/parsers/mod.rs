//! Parsers to read structured data from the content of `/proc` files

use vstd::prelude::*;

use crate::decimal::{chars_of, decimal_string, parse_signed, parse_unsigned, spec_decimal};
use crate::decimal::{spec_parse_signed, spec_parse_unsigned};
use crate::process::{first_index_of, lemma_first_index_exists, Pid};
use crate::procfs::ProcfsError;
use crate::text::{lacks, lemma_joined_lacks, lemma_lines_of_joined, lemma_words_of_joined, spec_joined};
use crate::text::{line_ranges, spec_lines, spec_words, word_ranges};

pub mod process;
pub mod system;

verus! {

/// The tokens of a text, line by line: each line is split on `'\n'`, and each line is made of
/// its space-separated words (empty words are dropped).
pub open spec fn spec_token_lines(s: Seq<char>) -> Seq<Seq<Seq<char>>> {
    spec_lines(s).map_values(|l: Seq<char>| spec_words(l))
}

/// A token: not empty, with neither space nor newline
pub open spec fn is_word(w: Seq<char>) -> bool {
    w.len() > 0 && lacks(w, ' ') && lacks(w, '\n')
}

/// The text whose lines are the given rows of tokens, the tokens of a row separated by single
/// spaces
pub open spec fn spec_text_of_rows(rows: Seq<Seq<Seq<char>>>) -> Seq<char> {
    spec_joined(rows.map_values(|r: Seq<Seq<char>>| spec_joined(r, ' ')), '\n')
}

/// The text written from rows of tokens is split back into the same rows of tokens
pub proof fn lemma_tokens_of_rows(rows: Seq<Seq<Seq<char>>>)
    requires
        rows.len() > 0,
        forall|k: int, j: int| 0 <= k < rows.len() && 0 <= j < rows[k].len() ==> is_word(#[trigger] rows[k][j]),
    ensures
        spec_token_lines(spec_text_of_rows(rows)) == rows,
{
    let lines = rows.map_values(|r: Seq<Seq<char>>| spec_joined(r, ' '));
    assert forall|k: int| 0 <= k < lines.len() implies lacks(#[trigger] lines[k], '\n')
        && spec_words(lines[k]) == rows[k] by {
        let row = rows[k];
        assert forall|j: int| 0 <= j < row.len() implies #[trigger] row[j].len() > 0 && lacks(row[j], ' ') by {
            assert(is_word(rows[k][j]));
        }
        assert forall|j: int| 0 <= j < row.len() implies lacks(#[trigger] row[j], '\n') by {
            assert(is_word(rows[k][j]));
        }
        lemma_joined_lacks(row, ' ', '\n');
        lemma_words_of_joined(row);
    }
    lemma_lines_of_joined(lines);
    assert(spec_token_lines(spec_text_of_rows(rows)) =~= rows);
}

/// Types that can be read from a single token of text
pub trait FromToken: Sized + View {
    /// The value that the token `tok` denotes, or `None` when it denotes no value of this type
    spec fn spec_from_token(tok: Seq<char>) -> Option<Self::V>;

    /// Reads the token made of the characters `chars[start..end]` of `source`
    fn from_token(source: &str, chars: &Vec<char>, start: usize, end: usize) -> (r: Option<Self>)
        requires
            chars@ == source@,
            start <= end <= chars@.len(),
        ensures
            match r {
                Some(v) => Self::spec_from_token(chars@.subrange(start as int, end as int)) == Some(
                    v@,
                ),
                None => Self::spec_from_token(chars@.subrange(start as int, end as int)) is None,
            },
    ;
}

impl FromToken for u8 {
    open spec fn spec_from_token(tok: Seq<char>) -> Option<u8> {
        match spec_parse_unsigned(tok, u8::MAX as nat) {
            Some(v) => Some(v as u8),
            None => None,
        }
    }

    fn from_token(source: &str, chars: &Vec<char>, start: usize, end: usize) -> (r: Option<u8>) {
        match parse_unsigned(chars, start, end, u8::MAX as u64) {
            Some(v) => Some(v as u8),
            None => None,
        }
    }
}

impl FromToken for u16 {
    open spec fn spec_from_token(tok: Seq<char>) -> Option<u16> {
        match spec_parse_unsigned(tok, u16::MAX as nat) {
            Some(v) => Some(v as u16),
            None => None,
        }
    }

    fn from_token(source: &str, chars: &Vec<char>, start: usize, end: usize) -> (r: Option<u16>) {
        match parse_unsigned(chars, start, end, u16::MAX as u64) {
            Some(v) => Some(v as u16),
            None => None,
        }
    }
}

impl FromToken for u32 {
    open spec fn spec_from_token(tok: Seq<char>) -> Option<u32> {
        match spec_parse_unsigned(tok, u32::MAX as nat) {
            Some(v) => Some(v as u32),
            None => None,
        }
    }

    fn from_token(source: &str, chars: &Vec<char>, start: usize, end: usize) -> (r: Option<u32>) {
        match parse_unsigned(chars, start, end, u32::MAX as u64) {
            Some(v) => Some(v as u32),
            None => None,
        }
    }
}

impl FromToken for u64 {
    open spec fn spec_from_token(tok: Seq<char>) -> Option<u64> {
        match spec_parse_unsigned(tok, u64::MAX as nat) {
            Some(v) => Some(v as u64),
            None => None,
        }
    }

    fn from_token(source: &str, chars: &Vec<char>, start: usize, end: usize) -> (r: Option<u64>) {
        parse_unsigned(chars, start, end, u64::MAX)
    }
}

impl FromToken for usize {
    open spec fn spec_from_token(tok: Seq<char>) -> Option<usize> {
        match spec_parse_unsigned(tok, usize::MAX as nat) {
            Some(v) => Some(v as usize),
            None => None,
        }
    }

    fn from_token(source: &str, chars: &Vec<char>, start: usize, end: usize) -> (r: Option<usize>) {
        match parse_unsigned(chars, start, end, usize::MAX as u64) {
            Some(v) => Some(v as usize),
            None => None,
        }
    }
}

impl FromToken for i16 {
    open spec fn spec_from_token(tok: Seq<char>) -> Option<i16> {
        match spec_parse_signed(tok, i16::MAX as nat) {
            Some(v) => Some(v as i16),
            None => None,
        }
    }

    fn from_token(source: &str, chars: &Vec<char>, start: usize, end: usize) -> (r: Option<i16>) {
        match parse_signed(chars, start, end, i16::MAX as u64) {
            Some((neg, m)) => {
                if neg {
                    Some((0 - m as i64) as i16)
                } else {
                    Some(m as i16)
                }
            },
            None => None,
        }
    }
}

impl FromToken for i32 {
    open spec fn spec_from_token(tok: Seq<char>) -> Option<i32> {
        match spec_parse_signed(tok, i32::MAX as nat) {
            Some(v) => Some(v as i32),
            None => None,
        }
    }

    fn from_token(source: &str, chars: &Vec<char>, start: usize, end: usize) -> (r: Option<i32>) {
        match parse_signed(chars, start, end, i32::MAX as u64) {
            Some((neg, m)) => {
                if neg {
                    Some((0 - m as i64) as i32)
                } else {
                    Some(m as i32)
                }
            },
            None => None,
        }
    }
}

impl FromToken for i64 {
    open spec fn spec_from_token(tok: Seq<char>) -> Option<i64> {
        match spec_parse_signed(tok, i64::MAX as nat) {
            Some(v) => Some(v as i64),
            None => None,
        }
    }

    fn from_token(source: &str, chars: &Vec<char>, start: usize, end: usize) -> (r: Option<i64>) {
        match parse_signed(chars, start, end, i64::MAX as u64) {
            Some((neg, m)) => {
                if !neg {
                    Some(m as i64)
                } else if m == 0 {
                    Some(0)
                } else {
                    Some((0 - (m - 1) as i64) - 1)
                }
            },
            None => None,
        }
    }
}

impl FromToken for String {
    open spec fn spec_from_token(tok: Seq<char>) -> Option<Seq<char>> {
        Some(tok)
    }

    fn from_token(source: &str, chars: &Vec<char>, start: usize, end: usize) -> (r: Option<String>) {
        Some(source.substring_char(start, end).to_owned())
    }
}

/// What reading the token at line `line` and position `pos` gives
pub enum TokenOutcome<V> {
    /// The token denotes this value
    Value(V),
    /// There is no line `line`
    MissingLine,
    /// The line has no token at position `pos`
    MissingToken,
    /// The token denotes no value of the expected type
    Unparsable,
}

/// The outcome of reading the token at line `line` and position `pos` of `lines` as a `T`
pub open spec fn spec_token<T: FromToken>(lines: Seq<Seq<Seq<char>>>, line: int, pos: int) -> TokenOutcome<
    T::V,
> {
    if line < 0 || line >= lines.len() {
        TokenOutcome::MissingLine
    } else if pos < 0 || pos >= lines[line].len() {
        TokenOutcome::MissingToken
    } else {
        match T::spec_from_token(lines[line][pos]) {
            Some(v) => TokenOutcome::Value(v),
            None => TokenOutcome::Unparsable,
        }
    }
}

/// `prefix`, the line number, `" and position "`, the position, then `suffix`
pub open spec fn spec_position_message(prefix: Seq<char>, line: nat, pos: nat, suffix: Seq<char>) -> Seq<
    char,
> {
    prefix + spec_decimal(line) + " and position "@ + spec_decimal(pos) + suffix
}

/// Does `e` report the failed `outcome` of reading the token at `line` and `pos`?
pub open spec fn reports_token_failure<V>(e: ProcfsError, outcome: TokenOutcome<V>, line: nat, pos: nat) -> bool {
    match outcome {
        TokenOutcome::MissingLine => e matches ProcfsError::InvalidFileFormat(m) && m@
            == spec_position_message("Could not get data at line "@, line, pos, ""@),
        TokenOutcome::MissingToken => e matches ProcfsError::InvalidFileFormat(m) && m@
            == spec_position_message("Could not get token at line "@, line, pos, ""@),
        TokenOutcome::Unparsable => e matches ProcfsError::InvalidFileContent(m) && m@
            == spec_position_message("The token at line "@, line, pos, " could not be parsed"@),
        TokenOutcome::Value(_) => false,
    }
}

/// Did `r` fail with the error that reports the failed `outcome` at `line` and `pos`?
pub open spec fn fails_with<T, V>(r: Result<T, ProcfsError>, outcome: TokenOutcome<V>, line: nat, pos: nat) -> bool {
    match r {
        Err(e) => reports_token_failure(e, outcome, line, pos),
        Ok(_) => false,
    }
}

/// Is `r` what reading the token at `line` and `pos` of `lines` as a `T` must return?
pub open spec fn token_result<T: FromToken>(
    lines: Seq<Seq<Seq<char>>>,
    line: nat,
    pos: nat,
    r: Result<T, ProcfsError>,
) -> bool {
    match spec_token::<T>(lines, line as int, pos as int) {
        TokenOutcome::Value(v) => r matches Ok(x) && x@ == v,
        outcome => r matches Err(e) && reports_token_failure(e, outcome, line, pos),
    }
}

fn position_message(prefix: &str, line: usize, pos: usize, suffix: &str) -> (m: String)
    ensures
        m@ == spec_position_message(prefix@, line as nat, pos as nat, suffix@),
{
    let mut m = String::from_str(prefix);
    m.append(decimal_string(line as u64).as_str());
    let and_position = " and position ";
    m.append(and_position);
    m.append(decimal_string(pos as u64).as_str());
    m.append(suffix);
    m
}

/// Parses space-separated tokens from a given multi-line string slice
pub struct TokenParser<'a> {
    source: &'a str,
    chars: Vec<char>,
    lines: Vec<Vec<(usize, usize)>>,
}

impl<'a> TokenParser<'a> {
    #[verifier::type_invariant]
    spec fn well_formed(&self) -> bool {
        &&& self.chars@ == self.source@
        &&& forall|l: int, k: int|
            0 <= l < self.lines@.len() && 0 <= k < self.lines@[l]@.len() ==> {
                let r = #[trigger] self.lines@[l]@[k];
                r.0 <= r.1 <= self.chars@.len()
            }
    }

    /// The tokens of the parsed text, line by line
    pub closed spec fn spec_tokens(&self) -> Seq<Seq<Seq<char>>> {
        self.lines@.map_values(
            |l: Vec<(usize, usize)>|
                l@.map_values(|r: (usize, usize)| self.chars@.subrange(r.0 as int, r.1 as int)),
        )
    }

    /// Builds a token parser from a string slice
    /// # Arguments
    ///  * `content` The string slice from which to parse tokens
    pub fn new(content: &'a str) -> (tp: Self)
        ensures
            tp.spec_tokens() == spec_token_lines(content@),
    {
        let chars = chars_of(content);
        let ranges = line_ranges(&chars);
        let ghost expected = spec_token_lines(chars@);
        let mut lines: Vec<Vec<(usize, usize)>> = Vec::new();
        let mut i: usize = 0;
        while i < ranges.len()
            invariant
                i <= ranges@.len(),
                ranges@.len() == spec_lines(chars@).len(),
                forall|k: int|
                    #![trigger ranges@[k]]
                    0 <= k < ranges@.len() ==> ranges@[k].0 <= ranges@[k].1 <= chars.len()
                        && chars@.subrange(ranges@[k].0 as int, ranges@[k].1 as int) == spec_lines(
                        chars@,
                    )[k],
                expected == spec_token_lines(chars@),
                lines@.len() == i,
                forall|l: int, k: int|
                    0 <= l < lines@.len() && 0 <= k < lines@[l]@.len() ==> {
                        let r = #[trigger] lines@[l]@[k];
                        r.0 <= r.1 <= chars@.len()
                    },
                forall|l: int|
                    #![trigger lines@[l]]
                    0 <= l < lines@.len() ==> lines@[l]@.map_values(
                        |r: (usize, usize)| chars@.subrange(r.0 as int, r.1 as int),
                    ) == expected[l],
            decreases ranges.len() - i,
        {
            let (a, b) = ranges[i];
            let words = word_ranges(&chars, a, b);
            proof {
                assert(words@.map_values(
                    |r: (usize, usize)| chars@.subrange(r.0 as int, r.1 as int),
                ) =~= expected[i as int]);
            }
            lines.push(words);
            i = i + 1;
        }
        let tp = TokenParser { source: content, chars, lines };
        assert(tp.spec_tokens() =~= spec_token_lines(content@));
        tp
    }

    /// Get the value of a token from the parser
    /// # Arguments
    ///  * `line_no`: The line number from which to retrieve the token
    ///  * `pos`: The position of the token in the line (e.g. 1 for token 'b' in line 'a b c')
    pub fn token<T: FromToken>(&self, line_no: usize, pos: usize) -> (r: Result<T, ProcfsError>)
        ensures
            token_result(self.spec_tokens(), line_no as nat, pos as nat, r),
    {
        proof {
            use_type_invariant(self);
        }
        if line_no >= self.lines.len() {
            let m = position_message("Could not get data at line ", line_no, pos, "");
            return Err(ProcfsError::InvalidFileFormat(m));
        }
        let line = &self.lines[line_no];
        if pos >= line.len() {
            let m = position_message("Could not get token at line ", line_no, pos, "");
            return Err(ProcfsError::InvalidFileFormat(m));
        }
        let (start, end) = line[pos];
        assert(self.spec_tokens()[line_no as int][pos as int] == self.chars@.subrange(
            start as int,
            end as int,
        ));
        match T::from_token(self.source, &self.chars, start, end) {
            Some(v) => Ok(v),
            None => {
                let m = position_message("The token at line ", line_no, pos, " could not be parsed");
                Err(ProcfsError::InvalidFileContent(m))
            },
        }
    }
}

/// Type which can be parsed from a `TokenParser`
pub trait Parse: Sized {
    fn parse(token_parser: &TokenParser) -> Result<Self, ProcfsError>;
}

/// Specialization of a `Parse` type which is not associated to a process
pub trait SystemData: Parse {
    /// The path of the `/proc` file holding the data
    fn filepath() -> String;
}

/// Specialization of a `Parse` type which is associated to a process
pub trait ProcessData: Parse {
    /// The path of the `/proc` file holding the data of the process `pid`
    fn filepath(pid: Pid) -> String;
}

/// Type which can read a `SystemData`
pub trait ReadSystemData<D: SystemData> {
    fn read(&mut self) -> Result<D, ProcfsError>;
}

/// Type which can read a `ProcessData`
pub trait ReadProcessData<D: ProcessData> {
    fn read(&mut self, pid: Pid) -> Result<D, ProcfsError>;

    fn cleanup(&mut self, pid: Pid);
}

/// Helps limit the number of `/proc` files kept open.
///
/// As opening a file is an expensive operation, we want to keep as many files open as possible.
/// But on Linux, there is a limit to how many files a single process can hold open.
///
/// The strategy is to only keep open the files of the oldest processes: the oldest running
/// processes are less likely to die in the near future, which reduces the turnover of open
/// files once the limit is reached.
pub struct TailedProcessLimiter {
    opened_processes: Vec<Pid>,
    capacity: usize,
}

impl TailedProcessLimiter {
    #[verifier::type_invariant]
    spec fn within_capacity(&self) -> bool {
        self.opened_processes@.len() <= self.capacity
    }

    /// The processes whose files are kept open, oldest first
    pub closed spec fn spec_opened(&self) -> Seq<Pid> {
        self.opened_processes@
    }

    /// How many processes may have their files kept open
    pub closed spec fn spec_capacity(&self) -> nat {
        self.capacity as nat
    }

    pub fn with_capacity(capacity: usize) -> (l: Self)
        ensures
            l.spec_opened() == Seq::<Pid>::empty(),
            l.spec_capacity() == capacity,
            l.spec_opened().len() <= l.spec_capacity(),
    {
        TailedProcessLimiter { opened_processes: Vec::with_capacity(capacity), capacity }
    }

    /// Registers `pid` as a process whose file was just opened; it is kept only while there is
    /// room left.
    pub fn push_pid(&mut self, pid: Pid)
        ensures
            final(self).spec_capacity() == old(self).spec_capacity(),
            old(self).spec_opened().len() >= old(self).spec_capacity() ==> final(self).spec_opened()
                == old(self).spec_opened(),
            old(self).spec_opened().len() < old(self).spec_capacity() ==> final(self).spec_opened()
                == old(self).spec_opened().push(pid),
            final(self).spec_opened().len() <= final(self).spec_capacity(),
    {
        proof {
            use_type_invariant(&*self);
        }
        if self.opened_processes.len() >= self.capacity {
            return;
        }
        let mut opened = Vec::new();
        std::mem::swap(&mut opened, &mut self.opened_processes);
        opened.push(pid);
        self.opened_processes = opened;
    }

    /// Forgets the first registration of `pid`, if any
    pub fn delete_pid(&mut self, pid: Pid)
        ensures
            final(self).spec_capacity() == old(self).spec_capacity(),
            match first_index_of(old(self).spec_opened(), pid) {
                Some(i) => final(self).spec_opened() == old(self).spec_opened().remove(i),
                None => final(self).spec_opened() == old(self).spec_opened(),
            },
            final(self).spec_opened().len() <= final(self).spec_capacity(),
    {
        proof {
            use_type_invariant(&*self);
        }
        let mut i: usize = 0;
        while i < self.opened_processes.len()
            invariant
                i <= self.opened_processes@.len(),
                self.opened_processes@ == old(self).opened_processes@,
                self.capacity == old(self).capacity,
                self.opened_processes@.len() <= self.capacity,
                forall|j: int| 0 <= j < i ==> self.opened_processes@[j] != pid,
            decreases self.opened_processes@.len() - i,
        {
            if self.opened_processes[i] == pid {
                proof {
                    let s = old(self).opened_processes@;
                    lemma_first_index_exists(s, pid);
                    let f = first_index_of(s, pid)->Some_0;
                    if f < i {
                        assert(s[f] == pid);
                    }
                    if f > i {
                        assert(s[i as int] == pid);
                    }
                }
                let mut opened = Vec::new();
                std::mem::swap(&mut opened, &mut self.opened_processes);
                opened.remove(i);
                self.opened_processes = opened;
                return;
            }
            i = i + 1;
        }
        assert(!old(self).spec_opened().contains(pid));
    }

    /// Should the file of `pid` be kept open?
    pub fn should_keep_process_file_opened(&self, pid: Pid) -> (b: bool)
        ensures
            b == self.spec_opened().contains(pid),
    {
        let mut i: usize = 0;
        while i < self.opened_processes.len()
            invariant
                i <= self.opened_processes@.len(),
                forall|j: int| 0 <= j < i ==> self.opened_processes@[j] != pid,
            decreases self.opened_processes@.len() - i,
        {
            if self.opened_processes[i] == pid {
                return true;
            }
            i = i + 1;
        }
        false
    }
}

/// Forgetting a process that was registered while there was room left, and that was not
/// registered before, restores the processes whose files are kept open
pub proof fn law_delete_undoes_push(opened: Seq<Pid>, pid: Pid)
    requires
        !opened.contains(pid),
    ensures
        first_index_of(opened.push(pid), pid) == Some(opened.len() as int),
        opened.push(pid).remove(opened.len() as int) == opened,
{
    let pushed = opened.push(pid);
    assert(pushed[opened.len() as int] == pid);
    lemma_first_index_exists(pushed, pid);
    let i = first_index_of(pushed, pid)->Some_0;
    if i < opened.len() {
        assert(opened[i] == pid);
    }
    assert(pushed.remove(opened.len() as int) =~= opened);
}

} // verus!
