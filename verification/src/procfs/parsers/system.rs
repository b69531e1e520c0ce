//! Data parsed from system-wide files

use vstd::prelude::*;

use crate::decimal::{lemma_signed_decimal_is_word, lemma_unsigned_reads_back, spec_decimal};
use crate::procfs::parsers::{fails_with, spec_token, Parse, SystemData, TokenOutcome, TokenParser};
use crate::procfs::parsers::{is_word, FromToken, lemma_tokens_of_rows, spec_text_of_rows, spec_token_lines};
use crate::procfs::ProcfsError;

verus! {

/// Represents data and additional computed data from `/proc/stat`
#[derive(PartialEq, Eq, Structural, Debug)]
pub struct Stat {
    /// Time spent in user mode
    user: u64,
    /// Time spent in user mode with low priority (nice)
    nice: u64,
    /// Time spent in system mode
    system: u64,
    /// Time spent in the idle task
    idle: u64,
    /// Time spent running a virtual CPU for guest operating systems under the control of the
    /// Linux kernel
    guest: u64,
    /// Time spent running a niced guest (virtual CPU for guest operating systems under the
    /// control of the Linux kernel)
    guest_nice: u64,
}

impl Stat {
    /// The six counters, in the order `user`, `nice`, `system`, `idle`, `guest`, `guest_nice`
    pub closed spec fn spec_fields(&self) -> (u64, u64, u64, u64, u64, u64) {
        (self.user, self.nice, self.system, self.idle, self.guest, self.guest_nice)
    }

    /// The sum of the six counters
    pub open spec fn spec_running_time(&self) -> int {
        let f = self.spec_fields();
        f.0 + f.1 + f.2 + f.3 + f.4 + f.5
    }

    pub fn new(user: u64, nice: u64, system: u64, idle: u64, guest: u64, guest_nice: u64) -> (s: Self)
        ensures
            s.spec_fields() == (user, nice, system, idle, guest, guest_nice),
    {
        Stat { user, nice, system, idle, guest, guest_nice }
    }

    /// The total number of clock ticks counted by the six counters
    pub fn running_time(&self) -> (t: u64)
        requires
            self.spec_running_time() <= u64::MAX,
        ensures
            t == self.spec_running_time(),
    {
        self.user + self.nice + self.system + self.idle + self.guest + self.guest_nice
    }

    /// The total number of clock ticks counted by the six counters, if it fits in a `u64`
    pub fn checked_running_time(&self) -> (t: Option<u64>)
        ensures
            t is Some <==> self.spec_running_time() <= u64::MAX,
            t matches Some(v) ==> v == self.spec_running_time(),
    {
        let total: u128 = self.user as u128 + self.nice as u128 + self.system as u128 + self.idle as u128
            + self.guest as u128 + self.guest_nice as u128;
        if total <= u64::MAX as u128 {
            Some(total as u64)
        } else {
            None
        }
    }
}

/// Is `r` what parsing the tokens `t` of `/proc/stat` returns? The tokens 1, 2, 3, 4, 9 and 10
/// of the first line are read in this order; the first one that is missing or unparsable is
/// reported
pub open spec fn spec_stat_parsed(t: Seq<Seq<Seq<char>>>, r: Result<Stat, ProcfsError>) -> bool {
    let o1 = spec_token::<u64>(t, 0, 1);
    let o2 = spec_token::<u64>(t, 0, 2);
    let o3 = spec_token::<u64>(t, 0, 3);
    let o4 = spec_token::<u64>(t, 0, 4);
    let o9 = spec_token::<u64>(t, 0, 9);
    let o10 = spec_token::<u64>(t, 0, 10);
    &&& r is Ok <==> (o1 is Value && o2 is Value && o3 is Value && o4 is Value
        && o9 is Value && o10 is Value)
    &&& r matches Ok(s) ==> s.spec_fields() == (o1->Value_0, o2->Value_0, o3->Value_0,
        o4->Value_0, o9->Value_0, o10->Value_0)
    &&& !(o1 is Value) ==> fails_with(r, o1, 0, 1)
    &&& o1 is Value && !(o2 is Value) ==> fails_with(r, o2, 0, 2)
    &&& o1 is Value && o2 is Value && !(o3 is Value) ==> fails_with(r, o3, 0, 3)
    &&& o1 is Value && o2 is Value && o3 is Value && !(o4 is Value) ==> fails_with(r, o4, 0, 4)
    &&& o1 is Value && o2 is Value && o3 is Value && o4 is Value && !(o9 is Value)
        ==> fails_with(r, o9, 0, 9)
    &&& o1 is Value && o2 is Value && o3 is Value && o4 is Value && o9 is Value
        && !(o10 is Value) ==> fails_with(r, o10, 0, 10)
}

impl Parse for Stat {
    /// Reads the tokens 1, 2, 3, 4, 9 and 10 of the first line (the aggregated `cpu` line)
    fn parse(token_parser: &TokenParser) -> (r: Result<Self, ProcfsError>)
        ensures
            spec_stat_parsed(token_parser.spec_tokens(), r),
    {
        let user: u64 = token_parser.token(0, 1)?;
        let nice: u64 = token_parser.token(0, 2)?;
        let system: u64 = token_parser.token(0, 3)?;
        let idle: u64 = token_parser.token(0, 4)?;
        let guest: u64 = token_parser.token(0, 9)?;
        let guest_nice: u64 = token_parser.token(0, 10)?;
        Ok(Stat { user, nice, system, idle, guest, guest_nice })
    }
}

impl SystemData for Stat {
    fn filepath() -> (p: String)
        ensures
            p@ == "/proc/stat"@,
    {
        String::from_str("/proc/stat")
    }
}

/// The aggregated `cpu` line of `/proc/stat` with the given times in the columns that
/// `Stat::parse` reads, and zeros in the others
pub open spec fn spec_stat_text(user: u64, nice: u64, system: u64, idle: u64, guest: u64, guest_nice: u64) -> Seq<
    char,
> {
    spec_text_of_rows(
        seq![
            seq![
                "cpu"@,
                spec_decimal(user as nat),
                spec_decimal(nice as nat),
                spec_decimal(system as nat),
                spec_decimal(idle as nat),
                "0"@,
                "0"@,
                "0"@,
                "0"@,
                spec_decimal(guest as nat),
                spec_decimal(guest_nice as nat),
            ],
        ],
    )
}

/// Parsing `/proc/stat` reads back the times that `Stat::new` is given: in the text that lists
/// them in their columns, every token that `Stat::parse` reads denotes the time written there,
/// and parsing it (`Stat::parse` on `TokenParser::new` of the text) succeeds with the fields of
/// `Stat::new(user, nice, system, idle, guest, guest_nice)`
pub proof fn law_stat_text_reads_back(user: u64, nice: u64, system: u64, idle: u64, guest: u64, guest_nice: u64)
    ensures
        ({
            let t = spec_token_lines(spec_stat_text(user, nice, system, idle, guest, guest_nice));
            &&& spec_token::<u64>(t, 0, 1) == TokenOutcome::Value(user)
            &&& spec_token::<u64>(t, 0, 2) == TokenOutcome::Value(nice)
            &&& spec_token::<u64>(t, 0, 3) == TokenOutcome::Value(system)
            &&& spec_token::<u64>(t, 0, 4) == TokenOutcome::Value(idle)
            &&& spec_token::<u64>(t, 0, 9) == TokenOutcome::Value(guest)
            &&& spec_token::<u64>(t, 0, 10) == TokenOutcome::Value(guest_nice)
            &&& forall|r: Result<Stat, ProcfsError>| #[trigger] spec_stat_parsed(t, r) ==> (r matches Ok(
                s,
            ) && s.spec_fields() == (user, nice, system, idle, guest, guest_nice))
        }),
{
    reveal_strlit("cpu");
    reveal_strlit("0");
    let values = seq![user, nice, system, idle, guest, guest_nice];
    assert forall|k: int| 0 <= k < values.len() implies is_word(spec_decimal(#[trigger] values[k] as nat)) && <u64 as FromToken>::spec_from_token(spec_decimal(values[k] as nat)) == Some(values[k]) by {
        lemma_signed_decimal_is_word(values[k] as int);
        lemma_unsigned_reads_back(values[k] as nat, u64::MAX as nat);
    }
    let row = seq![
        "cpu"@,
        spec_decimal(user as nat),
        spec_decimal(nice as nat),
        spec_decimal(system as nat),
        spec_decimal(idle as nat),
        "0"@,
        "0"@,
        "0"@,
        "0"@,
        spec_decimal(guest as nat),
        spec_decimal(guest_nice as nat),
    ];
    assert(values[0] == user && values[1] == nice && values[2] == system && values[3] == idle
        && values[4] == guest && values[5] == guest_nice);
    assert forall|k: int, j: int| 0 <= k < seq![row].len() && 0 <= j < seq![row][k].len() implies is_word(
        #[trigger] seq![row][k][j],
    ) by {
        assert(k == 0);
    }
    lemma_tokens_of_rows(seq![row]);
}

} // verus!
