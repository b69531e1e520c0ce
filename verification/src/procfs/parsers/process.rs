//! Data parsed from per-process files

use vstd::prelude::*;

use crate::decimal::{decimal_string, spec_decimal, spec_signed_decimal};
use crate::decimal::{lemma_signed_decimal_is_word, lemma_signed_reads_back, lemma_unsigned_reads_back};
use crate::process::Pid;
use crate::procfs::parsers::{fails_with, spec_token, Parse, ProcessData, TokenOutcome, TokenParser};
use crate::procfs::parsers::{is_word, lemma_tokens_of_rows, spec_text_of_rows, spec_token_lines};
use crate::procfs::ProcfsError;

verus! {

/// `/proc/<pid>/<name>`
pub open spec fn spec_process_filepath(pid: Pid, name: Seq<char>) -> Seq<char> {
    "/proc/"@ + spec_decimal(pid as nat) + "/"@ + name
}

fn process_filepath(pid: Pid, name: &str) -> (p: String)
    ensures
        p@ == spec_process_filepath(pid, name@),
{
    let mut p = String::from_str("/proc/");
    p.append(decimal_string(pid as u64).as_str());
    p.append("/");
    p.append(name);
    p
}

/// Represents data from `/proc/<pid>/comm`
#[derive(Debug)]
pub struct Comm {
    command: String,
}

impl Comm {
    /// The command, as text
    pub closed spec fn spec_command(&self) -> Seq<char> {
        self.command@
    }

    pub fn new(command: &str) -> (c: Self)
        ensures
            c.spec_command() == command@,
    {
        Comm { command: String::from_str(command) }
    }

    /// Returns the command that spawned the process
    pub fn into_command(self) -> (c: String)
        ensures
            c@ == self.spec_command(),
    {
        self.command
    }
}

impl Parse for Comm {
    /// The command is the first token of the first line
    fn parse(token_parser: &TokenParser) -> (r: Result<Self, ProcfsError>)
        ensures
            ({
                let o = spec_token::<String>(token_parser.spec_tokens(), 0, 0);
                &&& r is Ok <==> o is Value
                &&& r matches Ok(c) ==> c.spec_command() == o->Value_0
                &&& !(o is Value) ==> fails_with(r, o, 0, 0)
            }),
    {
        let command: String = token_parser.token(0, 0)?;
        Ok(Comm { command })
    }
}

impl ProcessData for Comm {
    fn filepath(pid: Pid) -> (p: String)
        ensures
            p@ == spec_process_filepath(pid, "comm"@),
    {
        process_filepath(pid, "comm")
    }
}

/// Represents data from `/proc/<pid>/stat`
#[derive(PartialEq, Eq, Structural, Debug, Clone, Copy)]
pub struct PidStat {
    /// Time spent by the process in user mode
    utime: u32,
    /// Time spent by the process in kernel mode
    stime: u32,
    /// Time spent by the process waiting for children processes in user mode
    cutime: i32,
    /// Time spent by the process waiting for children processes in kernel mode
    cstime: i32,
    /// The time the process started after system boot, expressed in clock ticks
    starttime: u64,
}

impl PidStat {
    /// The fields, in the order `utime`, `stime`, `cutime`, `cstime`, `starttime`
    pub closed spec fn spec_fields(&self) -> (u32, u32, i32, i32, u64) {
        (self.utime, self.stime, self.cutime, self.cstime, self.starttime)
    }

    /// The sum of the four time counters
    pub open spec fn spec_running_time(&self) -> int {
        let f = self.spec_fields();
        f.0 + f.1 + f.2 + f.3
    }

    pub fn new(utime: u32, stime: u32, cutime: i32, cstime: i32, starttime: u64) -> (s: Self)
        ensures
            s.spec_fields() == (utime, stime, cutime, cstime, starttime),
    {
        PidStat { utime, stime, cutime, cstime, starttime }
    }

    /// The clock ticks spent running the process and waiting for its children
    pub fn running_time(&self) -> (t: i64)
        ensures
            t == self.spec_running_time(),
    {
        self.utime as i64 + self.stime as i64 + self.cutime as i64 + self.cstime as i64
    }

    /// Indicates how long after boot time the process started
    /// This value is expressed in clock ticks. It must be divided by `sysconf(_SC_CLK_TCK)` to
    /// get its value in seconds
    pub fn starttime(&self) -> (t: u64)
        ensures
            t == self.spec_fields().4,
    {
        self.starttime
    }
}

/// Is `r` what parsing the tokens `t` of `/proc/[pid]/stat` returns? The tokens 12, 13, 14, 15
/// and 21 of the first line are read in this order; the first one that is missing or unparsable
/// is reported
pub open spec fn spec_pid_stat_parsed(t: Seq<Seq<Seq<char>>>, r: Result<PidStat, ProcfsError>) -> bool {
    let o12 = spec_token::<u32>(t, 0, 12);
    let o13 = spec_token::<u32>(t, 0, 13);
    let o14 = spec_token::<i32>(t, 0, 14);
    let o15 = spec_token::<i32>(t, 0, 15);
    let o21 = spec_token::<u64>(t, 0, 21);
    &&& r is Ok <==> (o12 is Value && o13 is Value && o14 is Value && o15 is Value
        && o21 is Value)
    &&& r matches Ok(s) ==> s.spec_fields() == (o12->Value_0, o13->Value_0,
        o14->Value_0, o15->Value_0, o21->Value_0)
    &&& !(o12 is Value) ==> fails_with(r, o12, 0, 12)
    &&& o12 is Value && !(o13 is Value) ==> fails_with(r, o13, 0, 13)
    &&& o12 is Value && o13 is Value && !(o14 is Value) ==> fails_with(r, o14, 0, 14)
    &&& o12 is Value && o13 is Value && o14 is Value && !(o15 is Value) ==> fails_with(
        r,
        o15,
        0,
        15,
    )
    &&& o12 is Value && o13 is Value && o14 is Value && o15 is Value && !(o21 is Value)
        ==> fails_with(r, o21, 0, 21)
}

impl Parse for PidStat {
    /// Reads the tokens 12, 13, 14, 15 and 21 of the first line
    fn parse(token_parser: &TokenParser) -> (r: Result<Self, ProcfsError>)
        ensures
            spec_pid_stat_parsed(token_parser.spec_tokens(), r),
    {
        let utime: u32 = token_parser.token(0, 12)?;
        let stime: u32 = token_parser.token(0, 13)?;
        let cutime: i32 = token_parser.token(0, 14)?;
        let cstime: i32 = token_parser.token(0, 15)?;
        let starttime: u64 = token_parser.token(0, 21)?;
        Ok(PidStat { utime, stime, cutime, cstime, starttime })
    }
}

impl ProcessData for PidStat {
    fn filepath(pid: Pid) -> (p: String)
        ensures
            p@ == spec_process_filepath(pid, "stat"@),
    {
        process_filepath(pid, "stat")
    }
}

/// Represents data from `/proc/<pid>/io`
#[derive(PartialEq, Eq, Structural, Debug, Clone, Copy)]
pub struct PidIO {
    read_bytes: usize,
    write_bytes: usize,
    cancelled_write_bytes: usize,
}

impl PidIO {
    /// The fields, in the order `read_bytes`, `write_bytes`, `cancelled_write_bytes`
    pub closed spec fn spec_fields(&self) -> (usize, usize, usize) {
        (self.read_bytes, self.write_bytes, self.cancelled_write_bytes)
    }

    pub fn new(read_bytes: usize, write_bytes: usize, cancelled_write_bytes: usize) -> (p: Self)
        ensures
            p.spec_fields() == (read_bytes, write_bytes, cancelled_write_bytes),
    {
        PidIO { read_bytes, write_bytes, cancelled_write_bytes }
    }

    /// The bytes the process caused to be fetched from the storage layer
    pub fn read_bytes(&self) -> (b: usize)
        ensures
            b == self.spec_fields().0,
    {
        self.read_bytes
    }

    /// The bytes the process caused to be sent to the storage layer, minus those whose
    /// writing was cancelled (never below 0)
    pub fn written_bytes(&self) -> (b: usize)
        ensures
            b == if self.spec_fields().1 >= self.spec_fields().2 {
                self.spec_fields().1 - self.spec_fields().2
            } else {
                0
            },
    {
        self.write_bytes.saturating_sub(self.cancelled_write_bytes)
    }
}

/// Is `r` what parsing the tokens `t` of `/proc/[pid]/io` returns? The second token of the
/// lines 4, 5 and 6 is read, in this order; the first one that is missing or unparsable is
/// reported
pub open spec fn spec_pid_io_parsed(t: Seq<Seq<Seq<char>>>, r: Result<PidIO, ProcfsError>) -> bool {
    let o4 = spec_token::<usize>(t, 4, 1);
    let o5 = spec_token::<usize>(t, 5, 1);
    let o6 = spec_token::<usize>(t, 6, 1);
    &&& r is Ok <==> (o4 is Value && o5 is Value && o6 is Value)
    &&& r matches Ok(p) ==> p.spec_fields() == (o4->Value_0, o5->Value_0, o6->Value_0)
    &&& !(o4 is Value) ==> fails_with(r, o4, 4, 1)
    &&& o4 is Value && !(o5 is Value) ==> fails_with(r, o5, 5, 1)
    &&& o4 is Value && o5 is Value && !(o6 is Value) ==> fails_with(r, o6, 6, 1)
}

impl Parse for PidIO {
    /// Reads the second token of the lines 4, 5 and 6
    fn parse(token_parser: &TokenParser) -> (r: Result<Self, ProcfsError>)
        ensures
            spec_pid_io_parsed(token_parser.spec_tokens(), r),
    {
        let read_bytes: usize = token_parser.token(4, 1)?;
        let write_bytes: usize = token_parser.token(5, 1)?;
        let cancelled_write_bytes: usize = token_parser.token(6, 1)?;
        Ok(PidIO { read_bytes, write_bytes, cancelled_write_bytes })
    }
}

impl ProcessData for PidIO {
    fn filepath(pid: Pid) -> (p: String)
        ensures
            p@ == spec_process_filepath(pid, "io"@),
    {
        process_filepath(pid, "io")
    }
}

/// The line of `/proc/[pid]/stat` of process 1, named `c`, sleeping, with the given times in
/// the columns that `PidStat::parse` reads and zeros in the others
pub open spec fn spec_pid_stat_text(utime: u32, stime: u32, cutime: i32, cstime: i32, starttime: u64) -> Seq<char> {
    spec_text_of_rows(
        seq![
            seq![
                "1"@,
                "(c)"@,
                "S"@,
                "0"@,
                "0"@,
                "0"@,
                "0"@,
                "0"@,
                "0"@,
                "0"@,
                "0"@,
                "0"@,
                spec_decimal(utime as nat),
                spec_decimal(stime as nat),
                spec_signed_decimal(cutime as int),
                spec_signed_decimal(cstime as int),
                "0"@,
                "0"@,
                "0"@,
                "0"@,
                "0"@,
                spec_decimal(starttime as nat),
            ],
        ],
    )
}

/// Parsing `/proc/[pid]/stat` reads back the times that `PidStat::new` is given: in the text
/// that lists them in their columns (the times of the children may be negative), every token
/// that `PidStat::parse` reads denotes the time written there, and parsing it (`PidStat::parse`
/// on `TokenParser::new` of the text) succeeds with the fields of `PidStat::new(utime, stime,
/// cutime, cstime, starttime)`, whose start time is `starttime`
pub proof fn law_pid_stat_text_reads_back(utime: u32, stime: u32, cutime: i32, cstime: i32, starttime: u64)
    ensures
        ({
            let t = spec_token_lines(spec_pid_stat_text(utime, stime, cutime, cstime, starttime));
            &&& spec_token::<u32>(t, 0, 12) == TokenOutcome::Value(utime)
            &&& spec_token::<u32>(t, 0, 13) == TokenOutcome::Value(stime)
            &&& spec_token::<i32>(t, 0, 14) == TokenOutcome::Value(cutime)
            &&& spec_token::<i32>(t, 0, 15) == TokenOutcome::Value(cstime)
            &&& spec_token::<u64>(t, 0, 21) == TokenOutcome::Value(starttime)
            &&& forall|r: Result<PidStat, ProcfsError>| #[trigger] spec_pid_stat_parsed(t, r) ==> (r matches Ok(
                s,
            ) && s.spec_fields() == (utime, stime, cutime, cstime, starttime))
        }),
{
    reveal_strlit("1");
    reveal_strlit("(c)");
    reveal_strlit("S");
    reveal_strlit("0");
    lemma_signed_decimal_is_word(utime as int);
    lemma_signed_decimal_is_word(stime as int);
    lemma_signed_decimal_is_word(cutime as int);
    lemma_signed_decimal_is_word(cstime as int);
    lemma_signed_decimal_is_word(starttime as int);
    lemma_unsigned_reads_back(utime as nat, u32::MAX as nat);
    lemma_unsigned_reads_back(stime as nat, u32::MAX as nat);
    lemma_signed_reads_back(cutime as int, i32::MAX as nat);
    lemma_signed_reads_back(cstime as int, i32::MAX as nat);
    lemma_unsigned_reads_back(starttime as nat, u64::MAX as nat);
    let row = seq![
        "1"@,
        "(c)"@,
        "S"@,
        "0"@,
        "0"@,
        "0"@,
        "0"@,
        "0"@,
        "0"@,
        "0"@,
        "0"@,
        "0"@,
        spec_decimal(utime as nat),
        spec_decimal(stime as nat),
        spec_signed_decimal(cutime as int),
        spec_signed_decimal(cstime as int),
        "0"@,
        "0"@,
        "0"@,
        "0"@,
        "0"@,
        spec_decimal(starttime as nat),
    ];
    assert forall|k: int, j: int| 0 <= k < seq![row].len() && 0 <= j < seq![row][k].len() implies is_word(
        #[trigger] seq![row][k][j],
    ) by {
        assert(k == 0);
    }
    lemma_tokens_of_rows(seq![row]);
}

/// The content of `/proc/[pid]/io` with the given counts of bytes in the lines that
/// `PidIO::parse` reads, and zeros in the others
pub open spec fn spec_pid_io_text(read_bytes: usize, write_bytes: usize, cancelled_write_bytes: usize) -> Seq<char> {
    spec_text_of_rows(
        seq![
            seq!["rchar:"@, "0"@],
            seq!["wchar:"@, "0"@],
            seq!["syscr:"@, "0"@],
            seq!["syscw:"@, "0"@],
            seq!["read_bytes:"@, spec_decimal(read_bytes as nat)],
            seq!["write_bytes:"@, spec_decimal(write_bytes as nat)],
            seq!["cancelled_write_bytes:"@, spec_decimal(cancelled_write_bytes as nat)],
        ],
    )
}

/// Parsing `/proc/[pid]/io` reads back the counts that `PidIO::new` is given: in the text that
/// lists them on their lines, every token that `PidIO::parse` reads denotes the count written
/// there, and parsing it (`PidIO::parse` on `TokenParser::new` of the text) succeeds with the
/// fields of `PidIO::new(read_bytes, write_bytes, cancelled_write_bytes)`, whose read bytes are
/// `read_bytes`
pub proof fn law_pid_io_text_reads_back(read_bytes: usize, write_bytes: usize, cancelled_write_bytes: usize)
    ensures
        ({
            let t = spec_token_lines(spec_pid_io_text(read_bytes, write_bytes, cancelled_write_bytes));
            &&& spec_token::<usize>(t, 4, 1) == TokenOutcome::Value(read_bytes)
            &&& spec_token::<usize>(t, 5, 1) == TokenOutcome::Value(write_bytes)
            &&& spec_token::<usize>(t, 6, 1) == TokenOutcome::Value(cancelled_write_bytes)
            &&& forall|r: Result<PidIO, ProcfsError>| #[trigger] spec_pid_io_parsed(t, r) ==> (r matches Ok(
                p,
            ) && p.spec_fields() == (read_bytes, write_bytes, cancelled_write_bytes))
        }),
{
    reveal_strlit("rchar:");
    reveal_strlit("wchar:");
    reveal_strlit("syscr:");
    reveal_strlit("syscw:");
    reveal_strlit("read_bytes:");
    reveal_strlit("write_bytes:");
    reveal_strlit("cancelled_write_bytes:");
    reveal_strlit("0");
    lemma_signed_decimal_is_word(read_bytes as int);
    lemma_signed_decimal_is_word(write_bytes as int);
    lemma_signed_decimal_is_word(cancelled_write_bytes as int);
    lemma_unsigned_reads_back(read_bytes as nat, usize::MAX as nat);
    lemma_unsigned_reads_back(write_bytes as nat, usize::MAX as nat);
    lemma_unsigned_reads_back(cancelled_write_bytes as nat, usize::MAX as nat);
    let rows = seq![
        seq!["rchar:"@, "0"@],
        seq!["wchar:"@, "0"@],
        seq!["syscr:"@, "0"@],
        seq!["syscw:"@, "0"@],
        seq!["read_bytes:"@, spec_decimal(read_bytes as nat)],
        seq!["write_bytes:"@, spec_decimal(write_bytes as nat)],
        seq!["cancelled_write_bytes:"@, spec_decimal(cancelled_write_bytes as nat)],
    ];
    assert forall|k: int, j: int| 0 <= k < rows.len() && 0 <= j < rows[k].len() implies is_word(
        #[trigger] rows[k][j],
    ) by {
        assert(0 <= k < 7);
    }
    lemma_tokens_of_rows(rows);
}

} // verus!
