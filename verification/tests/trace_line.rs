use syscall_info::arg::{SyscallArg, SyscallArgs};
use syscall_info::info::SyscallInfo;
use syscall_info::record::Elapsed;
use syscall_info::retcode::RetCode;
use syscall_info::style::{Style, StyleConfig};
use syscall_info::syscall::Syscall;

fn read_call() -> SyscallInfo {
    SyscallInfo::new(
        1234,
        Syscall::new(0, "read".to_string()),
        RetCode::from_raw(64),
        SyscallArgs(vec![SyscallArg::Int(3), SyscallArg::Addr(0x7fffdead), SyscallArg::Int(128)]),
        Elapsed { nanos: 123_000 },
    )
}

fn call(num: i32, name: &str, raw: u64, args: Vec<SyscallArg>) -> SyscallInfo {
    SyscallInfo::new(
        7,
        Syscall::new(num, name.to_string()),
        RetCode::from_raw(raw),
        SyscallArgs(args),
        Elapsed { nanos: 1_500 },
    )
}

fn ansi() -> StyleConfig {
    let reset = "\u{1b}[0m";
    let style = |code: &str| Style { prefix: format!("\u{1b}[{}m", code), suffix: reset.to_string() };
    StyleConfig {
        use_colors: true,
        pid: style("34"),
        syscall: style("1"),
        success: style("32"),
        error: style("31"),
        result: style("33"),
    }
}

fn line(
    info: &SyscallInfo,
    style: &StyleConfig,
    string_limit: Option<usize>,
    show_syscall_num: bool,
    show_duration: bool,
) -> String {
    let mut out = String::new();
    info.write_syscall(style.clone(), string_limit, show_syscall_num, show_duration, &mut out);
    out
}

#[test]
fn read_call_with_duration() {
    assert_eq!(
        line(&read_call(), &StyleConfig::plain(), None, false, true),
        "[1234] read(3, 0x7FFFDEAD, 128) = 64 <123000.000000ns>\n"
    );
}

#[test]
fn read_call_without_duration() {
    assert_eq!(
        line(&read_call(), &StyleConfig::plain(), None, false, false),
        "[1234] read(3, 0x7FFFDEAD, 128) = 64\n"
    );
}

#[test]
fn record_of_a_new_call_has_the_fixed_tag() {
    let info = read_call();
    assert_eq!(info.typ, "SYSCALL");
    assert_eq!(info.pid, 1234);
    assert_eq!(info.syscall, Syscall::new(0, "read".to_string()));
    assert_eq!(info.result, RetCode::Success(64));
    assert_eq!(info.duration, Elapsed { nanos: 123_000 });
    assert_eq!(info.args.0.len(), 3);
}

#[test]
fn number_of_the_call_is_set_flush_right_in_three_columns() {
    assert_eq!(
        line(&read_call(), &StyleConfig::plain(), None, true, false),
        "[1234]   0 read(3, 0x7FFFDEAD, 128) = 64\n"
    );
    assert_eq!(
        line(&call(16, "ioctl", 0, vec![]), &StyleConfig::plain(), None, true, false),
        "[7]  16 ioctl() = 0\n"
    );
    assert_eq!(
        line(&call(257, "openat", 3, vec![]), &StyleConfig::plain(), None, true, false),
        "[7] 257 openat() = 3\n"
    );
    assert_eq!(
        line(&call(1000, "future", 0, vec![]), &StyleConfig::plain(), None, true, false),
        "[7] 1000 future() = 0\n"
    );
}

#[test]
fn line_ends_with_exactly_one_line_feed() {
    for show_duration in [false, true] {
        let text = line(&read_call(), &StyleConfig::plain(), None, true, show_duration);
        assert!(text.ends_with('\n'));
        assert_eq!(text.matches('\n').count(), 1);
    }
}

#[test]
fn exit_shows_a_question_mark_and_no_duration() {
    let exit = call(60, "exit", 0, vec![SyscallArg::Int(0)]);
    assert_eq!(line(&exit, &StyleConfig::plain(), None, false, true), "[7] exit(0) = ?\n");
    assert_eq!(line(&exit, &StyleConfig::plain(), None, false, false), "[7] exit(0) = ?\n");
    assert_eq!(line(&exit, &StyleConfig::plain(), None, true, true), "[7]  60 exit(0) = ?\n");
}

#[test]
fn exit_group_shows_a_question_mark_and_no_duration() {
    let exit = call(231, "exit_group", 0, vec![SyscallArg::Int(1)]);
    assert_eq!(line(&exit, &StyleConfig::plain(), None, false, true), "[7] exit_group(1) = ?\n");
    assert_eq!(line(&exit, &StyleConfig::plain(), None, true, true), "[7] 231 exit_group(1) = ?\n");
}

#[test]
fn exit_shows_a_question_mark_whatever_was_returned() {
    for raw in [0u64, 64, (-2i64) as u64, 0x7fff_f700_1000] {
        let exit = call(60, "exit", raw, vec![SyscallArg::Int(0)]);
        assert_eq!(line(&exit, &StyleConfig::plain(), None, false, true), "[7] exit(0) = ?\n");
        assert_eq!(
            line(&exit, &ansi(), None, false, true),
            "[\u{1b}[34m7\u{1b}[0m] \u{1b}[1mexit\u{1b}[0m(0) = ?\n"
        );
    }
}

#[test]
fn call_with_a_similar_name_is_not_an_exit() {
    let other = call(60, "exit_now", 0, vec![]);
    assert_eq!(
        line(&other, &StyleConfig::plain(), None, false, true),
        "[7] exit_now() = 0 <1500.000000ns>\n"
    );
}

#[test]
fn error_is_shown_as_a_negative_number() {
    let open = call(2, "open", (-2i64) as u64, vec![SyscallArg::Bytes(b"/nope".to_vec()), SyscallArg::Int(0)]);
    assert_eq!(
        line(&open, &StyleConfig::plain(), None, false, false),
        "[7] open(\"/nope\", 0) = -2\n"
    );
}

#[test]
fn address_is_shown_in_hex() {
    let mmap = call(9, "mmap", 0x7fff_f700_1000, vec![SyscallArg::Addr(0), SyscallArg::Int(4096)]);
    assert_eq!(
        line(&mmap, &StyleConfig::plain(), None, false, false),
        "[7] mmap(0x0, 4096) = 0x7FFFF7001000\n"
    );
}

#[test]
fn duration_is_the_count_of_nanoseconds() {
    let mut info = read_call();
    info.duration = Elapsed { nanos: 0 };
    assert_eq!(
        line(&info, &StyleConfig::plain(), None, false, true),
        "[1234] read(3, 0x7FFFDEAD, 128) = 64 <0.000000ns>\n"
    );
    info.duration = Elapsed { nanos: 2_000_000_000 };
    assert_eq!(
        line(&info, &StyleConfig::plain(), None, false, true),
        "[1234] read(3, 0x7FFFDEAD, 128) = 64 <2000000000.000000ns>\n"
    );
    info.duration = Elapsed { nanos: u128::MAX };
    assert_eq!(
        line(&info, &StyleConfig::plain(), None, false, true),
        format!("[1234] read(3, 0x7FFFDEAD, 128) = 64 <{}.000000ns>\n", u128::MAX)
    );
}

#[test]
fn string_limit_cuts_the_buffers_of_the_line() {
    let open = call(
        257,
        "openat",
        3,
        vec![
            SyscallArg::Int(-100),
            SyscallArg::Bytes(b"/usr/lib/locale/locale-archive".to_vec()),
            SyscallArg::Int(524288),
        ],
    );
    assert_eq!(
        line(&open, &StyleConfig::plain(), Some(8), false, false),
        "[7] openat(-100, \"/usr/lib...\", 524288) = 3\n"
    );
    assert_eq!(
        line(&open, &StyleConfig::plain(), Some(30), false, false),
        "[7] openat(-100, \"/usr/lib/locale/locale-archive\", 524288) = 3\n"
    );
    assert_eq!(
        line(&open, &StyleConfig::plain(), None, false, false),
        "[7] openat(-100, \"/usr/lib/locale/locale-archive\", 524288) = 3\n"
    );
}

#[test]
fn colours_wrap_the_pid_the_name_and_the_result() {
    assert_eq!(
        line(&read_call(), &ansi(), None, false, true),
        "[\u{1b}[34m1234\u{1b}[0m] \u{1b}[1mread\u{1b}[0m(3, 0x7FFFDEAD, 128) = \u{1b}[32m64\u{1b}[0m <123000.000000ns>\n"
    );
}

#[test]
fn colours_leave_the_number_of_the_call_plain() {
    assert_eq!(
        line(&read_call(), &ansi(), None, true, false),
        "[\u{1b}[34m1234\u{1b}[0m]   0 \u{1b}[1mread\u{1b}[0m(3, 0x7FFFDEAD, 128) = \u{1b}[32m64\u{1b}[0m\n"
    );
}

#[test]
fn each_kind_of_result_has_its_colour() {
    let failed = call(2, "open", (-2i64) as u64, vec![]);
    assert_eq!(
        line(&failed, &ansi(), None, false, false),
        "[\u{1b}[34m7\u{1b}[0m] \u{1b}[1mopen\u{1b}[0m() = \u{1b}[31m-2\u{1b}[0m\n"
    );
    let mapped = call(9, "mmap", 0x7fff_f700_1000, vec![]);
    assert_eq!(
        line(&mapped, &ansi(), None, false, false),
        "[\u{1b}[34m7\u{1b}[0m] \u{1b}[1mmmap\u{1b}[0m() = \u{1b}[33m0x7FFFF7001000\u{1b}[0m\n"
    );
}

#[test]
fn styles_are_ignored_where_colours_are_off() {
    let mut style = ansi();
    style.use_colors = false;
    assert_eq!(
        line(&read_call(), &style, None, false, true),
        "[1234] read(3, 0x7FFFDEAD, 128) = 64 <123000.000000ns>\n"
    );
}

#[test]
fn negative_pid_is_written_with_its_sign() {
    let mut info = read_call();
    info.pid = -1;
    assert_eq!(
        line(&info, &StyleConfig::plain(), None, false, false),
        "[-1] read(3, 0x7FFFDEAD, 128) = 64\n"
    );
}

#[test]
fn line_is_appended_to_earlier_output() {
    let mut out = String::new();
    let info = read_call();
    info.write_syscall(StyleConfig::plain(), None, false, false, &mut out);
    call(3, "close", 0, vec![SyscallArg::Int(3)]).write_syscall(
        StyleConfig::plain(),
        None,
        false,
        false,
        &mut out,
    );
    assert_eq!(out, "[1234] read(3, 0x7FFFDEAD, 128) = 64\n[7] close(3) = 0\n");
}

#[test]
fn call_from_the_table_is_written_under_its_name() {
    let sysno = syscalls::Sysno::close;
    let info = SyscallInfo::new(
        42,
        Syscall::lookup(sysno.id()).unwrap(),
        RetCode::from_raw(0),
        SyscallArgs(vec![SyscallArg::Int(5)]),
        Elapsed { nanos: 10 },
    );
    assert_eq!(
        line(&info, &StyleConfig::plain(), None, false, false),
        "[42] close(5) = 0\n"
    );
}
