use std::io::{Cursor, Read};

use spv::procfs::parsers::process::{Comm, PidIO, PidStat};
use spv::procfs::parsers::system::Stat;
use spv::procfs::parsers::{Parse, ProcessData, SystemData, TailedProcessLimiter, TokenParser};
use spv::procfs::sysconf::{clock_ticks, open_file_limit};
use spv::procfs::ProcfsError;

const PID_STAT_CONTENT: &str = "1905 (python3) S 1877 1905 1877 34822 1905 4194304 1096 0 0 \
13 42 11 10 0 20 0 1 0 487679 13963264 2541 18446744073709551615 4194304 7010805 \
140731882007344 0 0 0 0 16781312 134217730 1 0 0 17 0 0 0 0 0 0 9362864 9653016 \
10731520 140731882009319 140731882009327 140731882009327 140731882012647 0";

const STAT_CONTENT: &str = "cpu 10132153 290696 3084719 46828483 16683 0 25195 0 175628 0
cpu0 1393280 32966 572056 13343292 6130 0 17875 0 23933 0";

const IO_CONTENT: &str = "rchar: 323934931
        wchar: 323929600
        syscr: 632687
        syscw: 632675
        read_bytes: 12345
        write_bytes: 323932160
        cancelled_write_bytes: 876";

#[derive(PartialEq, Debug)]
struct TestSystemData {
    field_1: u8,
    field_2: i16,
}

impl Parse for TestSystemData {
    fn parse(token_parser: &TokenParser) -> Result<Self, ProcfsError> {
        Ok(TestSystemData {
            field_1: token_parser.token(0, 0)?,
            field_2: token_parser.token(0, 1)?,
        })
    }
}

/// Reads a source from its start and parses its content, as the readers of `/proc` files do
fn read_and_parse<D: Parse>(mut src: impl Read) -> Result<D, ProcfsError> {
    let mut content = String::new();
    src.read_to_string(&mut content).expect("could not read the source");
    D::parse(&TokenParser::new(&content))
}

fn check_extract_data_from_content() {
    let tp = TokenParser::new("1 2 3\n4 5 6");

    assert!(matches!(tp.token::<u8>(1, 1), Ok(5)));
}

fn check_returns_err_when_invalid_line() {
    let tp = TokenParser::new("1 2 3");

    assert!(tp.token::<u8>(1, 1).is_err());
}

fn check_returns_err_when_invalid_col() {
    let tp = TokenParser::new("1 2 3\n4 5 6");

    assert!(tp.token::<u8>(1, 4).is_err());
}

fn check_returns_err_when_invalid_parse() {
    let tp = TokenParser::new("1 2 3\n4 a 6");

    assert!(tp.token::<u8>(1, 1).is_err());
}

fn check_load_correctly_data() {
    let data_src = Cursor::new(b"12 -92 abc");

    assert!(matches!(
        read_and_parse::<TestSystemData>(data_src),
        Ok(TestSystemData { field_1: 12, field_2: -92 })
    ));
}

fn check_parse_pid_stat_file() {
    let token_parser = TokenParser::new(PID_STAT_CONTENT);
    let pid_stat = PidStat::parse(&token_parser).expect("Could not read PidStat");

    assert_eq!(pid_stat, PidStat::new(13, 42, 11, 10, 487679));
}

fn check_parse_stat_file() {
    let token_parser = TokenParser::new(STAT_CONTENT);
    let stat = Stat::parse(&token_parser).expect("Could not read Stat");

    assert_eq!(stat, Stat::new(10132153, 290696, 3084719, 46828483, 175628, 0));
}

fn check_pid_stat_running_time() {
    let pid_stat = PidStat::new(1, 2, 4, 8, 10);

    assert_eq!(15, pid_stat.running_time())
}

fn check_stat_running_time() {
    let stat = Stat::new(1, 2, 4, 8, 16, 32);

    assert_eq!(63, stat.running_time())
}

#[test]
fn mod_test_extract_data_from_content() {
    check_extract_data_from_content();
}

#[test]
fn probe_test_extract_data_from_content() {
    let tp = TokenParser::new("1 2 3\n4 5 6");

    assert_eq!(tp.token::<u8>(1, 1).ok(), Some(5));
}

#[test]
fn procfs_test_extract_data_from_content() {
    check_extract_data_from_content();
}

#[test]
fn parsers_test_extract_data_from_content() {
    check_extract_data_from_content();
}

#[test]
fn mod_test_returns_err_when_invalid_line() {
    check_returns_err_when_invalid_line();
}

#[test]
fn probe_test_returns_err_when_invalid_line() {
    check_returns_err_when_invalid_line();
}

#[test]
fn procfs_test_returns_err_when_invalid_line() {
    check_returns_err_when_invalid_line();
}

#[test]
fn parsers_test_returns_err_when_invalid_line() {
    check_returns_err_when_invalid_line();
}

#[test]
fn mod_test_returns_err_when_invalid_col() {
    check_returns_err_when_invalid_col();
}

#[test]
fn probe_test_returns_err_when_invalid_col() {
    check_returns_err_when_invalid_col();
}

#[test]
fn procfs_test_returns_err_when_invalid_col() {
    check_returns_err_when_invalid_col();
}

#[test]
fn parsers_test_returns_err_when_invalid_col() {
    check_returns_err_when_invalid_col();
}

#[test]
fn mod_test_returns_err_when_invalid_parse() {
    check_returns_err_when_invalid_parse();
}

#[test]
fn probe_test_returns_err_when_invalid_parse() {
    check_returns_err_when_invalid_parse();
}

#[test]
fn procfs_test_returns_err_when_invalid_parse() {
    check_returns_err_when_invalid_parse();
}

#[test]
fn parsers_test_returns_err_when_invalid_parse() {
    check_returns_err_when_invalid_parse();
}

#[test]
fn mod_test_load_correctly_data() {
    check_load_correctly_data();
}

#[test]
fn parsers_test_load_correctly_data() {
    check_load_correctly_data();
}

#[test]
fn probe_test_parse_stat_file() {
    check_parse_pid_stat_file();
    check_parse_stat_file();
}

#[test]
fn procfs_test_parse_stat_file() {
    check_parse_pid_stat_file();
    check_parse_stat_file();
}

#[test]
fn parsers_test_parse_stat_file() {
    check_parse_stat_file();
    check_parse_pid_stat_file();
}

#[test]
fn system_test_parse_stat_file() {
    check_parse_stat_file();
}

#[test]
fn process_test_parse_stat_file() {
    check_parse_pid_stat_file();
}

#[test]
fn probe_test_running_time() {
    check_pid_stat_running_time();
    check_stat_running_time();
}

#[test]
fn procfs_test_running_time() {
    check_pid_stat_running_time();
    check_stat_running_time();
}

#[test]
fn parsers_test_running_time() {
    check_stat_running_time();
    check_pid_stat_running_time();
}

#[test]
fn system_test_running_time() {
    check_stat_running_time();
}

#[test]
fn process_test_running_time() {
    check_pid_stat_running_time();
}

#[test]
fn parsers_filepath_should_contain_pid() {
    assert_eq!(<PidStat as ProcessData>::filepath(456), "/proc/456/stat");
}

#[test]
fn process_filepath_should_contain_pid() {
    assert_eq!(<PidStat as ProcessData>::filepath(456), "/proc/456/stat");
}

#[test]
fn parsers_test_should_produce_correct_file_path() {
    assert_eq!(<PidIO as ProcessData>::filepath(42), "/proc/42/io");
}

#[test]
fn process_test_should_produce_correct_file_path() {
    assert_eq!(<PidIO as ProcessData>::filepath(42), "/proc/42/io");
}

fn check_parse_io_file() {
    let token_parser = TokenParser::new(IO_CONTENT);
    let pid_io = PidIO::parse(&token_parser).unwrap();

    assert_eq!(pid_io.read_bytes(), 12345);
    assert_eq!(pid_io.written_bytes(), 323932160 - 876);
}

#[test]
fn parsers_test_should_parse_file_correctly() {
    check_parse_io_file();
}

#[test]
fn process_test_should_parse_file_correctly() {
    check_parse_io_file();
}

#[test]
fn written_bytes_saturate_at_zero() {
    assert_eq!(PidIO::new(1, 10, 25).written_bytes(), 0);
}

#[test]
fn system_files_paths() {
    assert_eq!(<Stat as SystemData>::filepath(), "/proc/stat");
    assert_eq!(<Comm as ProcessData>::filepath(12), "/proc/12/comm");
}

#[test]
fn comm_parses_the_command() {
    for content in ["bash", "bash\n"] {
        let comm = Comm::parse(&TokenParser::new(content)).expect("Cannot parse comm");
        assert_eq!(comm.into_command(), "bash");
    }
}

#[test]
fn token_errors_describe_the_position() {
    let tp = TokenParser::new("1 2 3\n4 a 6");

    match tp.token::<u8>(2, 0) {
        Err(ProcfsError::InvalidFileFormat(m)) => assert_eq!(m, "Could not get data at line 2 and position 0"),
        other => panic!("unexpected outcome {:?}", other),
    }
    match tp.token::<u8>(0, 3) {
        Err(ProcfsError::InvalidFileFormat(m)) => assert_eq!(m, "Could not get token at line 0 and position 3"),
        other => panic!("unexpected outcome {:?}", other),
    }
    match tp.token::<u8>(1, 1) {
        Err(ProcfsError::InvalidFileContent(m)) => {
            assert_eq!(m, "The token at line 1 and position 1 could not be parsed")
        }
        other => panic!("unexpected outcome {:?}", other),
    }
}

#[test]
fn tokens_parse_as_the_standard_library_parses_them() {
    let tp = TokenParser::new("255 256 -7 +8 x 18446744073709551615 -32768 abc");

    assert_eq!(tp.token::<u8>(0, 0).ok(), Some(255));
    assert!(tp.token::<u8>(0, 1).is_err());
    assert!(tp.token::<u32>(0, 2).is_err());
    assert_eq!(tp.token::<i32>(0, 2).ok(), Some(-7));
    assert_eq!(tp.token::<u16>(0, 3).ok(), Some(8));
    assert!(tp.token::<i64>(0, 4).is_err());
    assert_eq!(tp.token::<u64>(0, 5).ok(), Some(u64::MAX));
    assert_eq!(tp.token::<i16>(0, 6).ok(), Some(i16::MIN));
    assert_eq!(tp.token::<String>(0, 7).ok(), Some("abc".to_string()));
}

#[test]
fn should_keep_file_opened_when_under_capacity() {
    let mut limiter = TailedProcessLimiter::with_capacity(2);

    limiter.push_pid(1);
    limiter.push_pid(2);

    assert!(limiter.should_keep_process_file_opened(2));
}

#[test]
fn should_not_keep_file_opened_when_above_capacity() {
    let mut limiter = TailedProcessLimiter::with_capacity(2);

    limiter.push_pid(1);
    limiter.push_pid(2);
    limiter.push_pid(3);

    assert!(!limiter.should_keep_process_file_opened(3));
}

#[test]
fn should_keep_file_opened_when_below_capacity_after_cleanup() {
    let mut limiter = TailedProcessLimiter::with_capacity(2);

    limiter.push_pid(1);
    limiter.push_pid(2);
    limiter.delete_pid(2);
    limiter.push_pid(3);

    assert!(limiter.should_keep_process_file_opened(3));
}

#[test]
fn should_keep_already_pushed_file_open_even_if_pushed_again_above_capacity() {
    let mut limiter = TailedProcessLimiter::with_capacity(2);

    limiter.push_pid(1);
    limiter.push_pid(2);
    limiter.push_pid(1);

    assert!(limiter.should_keep_process_file_opened(1));
}

#[test]
fn should_not_keep_file_open_if_pushed_and_destroyed_and_repushed_above_capacity() {
    let mut limiter = TailedProcessLimiter::with_capacity(2);

    limiter.push_pid(1);
    limiter.push_pid(2);
    limiter.delete_pid(2);
    limiter.push_pid(3);
    limiter.push_pid(2);

    assert!(!limiter.should_keep_process_file_opened(2));
}

#[test]
fn unknown_pid_files_are_not_kept_open() {
    let limiter = TailedProcessLimiter::with_capacity(2);

    assert!(!limiter.should_keep_process_file_opened(9));
}

#[test]
fn procfs_errors_describe_themselves() {
    assert_eq!(ProcfsError::UnknownPID(123).to_string(), "PID is not known: '123'");
    assert_eq!(ProcfsError::InvalidFileFormat("bad".to_string()).to_string(), "bad");
    assert_eq!(ProcfsError::NotEnoughData.to_string(), "Not enough data to estimate rate");
}

#[test]
fn system_configuration_values() {
    assert_eq!(clock_ticks(100).ok(), Some(100));
    assert!(matches!(clock_ticks(-1), Err(ProcfsError::SysconfError)));
    assert_eq!(open_file_limit(0, 1024).ok(), Some(1024));
    assert!(matches!(open_file_limit(-1, 1024), Err(ProcfsError::RLimitError)));
}

#[test]
fn deleting_a_pushed_pid_restores_the_kept_files() {
    let mut limiter = TailedProcessLimiter::with_capacity(3);
    limiter.push_pid(1);
    limiter.push_pid(2);

    limiter.push_pid(7);
    assert!(limiter.should_keep_process_file_opened(7));
    limiter.delete_pid(7);

    assert!(!limiter.should_keep_process_file_opened(7));
    assert!(limiter.should_keep_process_file_opened(1));
    assert!(limiter.should_keep_process_file_opened(2));
    limiter.push_pid(8);
    assert!(limiter.should_keep_process_file_opened(8));
}

#[test]
fn stat_text_reads_back_its_times() {
    let (u, n, sy, id, g, gn) = (u64::MAX, 0, 17, 123456789, 5, 42);
    let content = format!("cpu {} {} {} {} 0 0 0 0 {} {}", u, n, sy, id, g, gn);

    let parsed = Stat::parse(&TokenParser::new(&content)).unwrap();

    assert_eq!(parsed, Stat::new(u, n, sy, id, g, gn));
}

#[test]
fn pid_stat_text_reads_back_its_times() {
    let (ut, st, cut, cst, start) = (u32::MAX, 3, i32::MIN, -12, u64::MAX);
    let content = format!("1 (c) S 0 0 0 0 0 0 0 0 0 {} {} {} {} 0 0 0 0 0 {}", ut, st, cut, cst, start);
    let parsed = PidStat::parse(&TokenParser::new(&content)).unwrap();

    assert_eq!(parsed, PidStat::new(ut, st, cut, cst, start));
    assert_eq!(parsed.starttime(), start);
}

#[test]
fn pid_io_text_reads_back_its_counts() {
    let (r, w, c) = (usize::MAX, 4096, 0);
    let content = format!(
        "rchar: 0\nwchar: 0\nsyscr: 0\nsyscw: 0\nread_bytes: {}\nwrite_bytes: {}\ncancelled_write_bytes: {}",
        r, w, c
    );
    let parsed = PidIO::parse(&TokenParser::new(&content)).unwrap();

    assert_eq!(parsed, PidIO::new(r, w, c));
    assert_eq!(parsed.read_bytes(), r);
}
