//! One observed system call, and its two renderings: a trace line and a structured record.

use vstd::prelude::*;
use vstd::seq_lib::lemma_concat_associative;
use crate::arg::{args_text, args_values, ArgView, SyscallArgs};
use crate::numeral::{
    decimal, numeral, push_decimal, push_numeral, push_right_aligned, right_aligned, Radix,
};
use crate::record::{
    entries_view, Elapsed, Entry, EntryView, Field, FieldView, Value, ValueView,
};
use crate::retcode::RetCode;
use crate::style::{StyleConfig, StyleConfigView};
use crate::syscall::{Syscall, SyscallView};

verus! {

/// The width of the field in which the number of the call stands, flush right.
pub const NUMBER_WIDTH: usize = 3;

/// One completed system call as the tracer saw it.
#[derive(Debug, Clone, PartialEq, Eq)]
pub struct SyscallInfo {
    /// The kind of record, the same for every call.
    pub typ: &'static str,
    /// The process that made the call.
    pub pid: i32,
    /// The call that was made.
    pub syscall: Syscall,
    /// The arguments, decoded.
    pub args: SyscallArgs,
    /// What the call returned, classified.
    pub result: RetCode,
    /// How long the call took.
    pub duration: Elapsed,
}

/// The mathematical content of a `SyscallInfo`.
pub struct InfoView {
    pub typ: Seq<char>,
    pub pid: int,
    pub syscall: SyscallView,
    pub args: Seq<ArgView>,
    pub result: RetCode,
    /// The duration in nanoseconds.
    pub nanos: nat,
}

impl View for SyscallInfo {
    type V = InfoView;

    open spec fn view(&self) -> InfoView {
        InfoView {
            typ: self.typ@,
            pid: self.pid as int,
            syscall: self.syscall@,
            args: self.args@,
            result: self.result,
            nanos: self.duration.nanos as nat,
        }
    }
}

impl InfoView {
    /// What a trace line shows after the `=`. A call that ends the process has no result to
    /// show: a question mark stands there, and nothing else. Any other call shows its return
    /// code, in the style of its kind, and then, where the duration is asked for, the count of
    /// nanoseconds with six zero decimals between ` <` and `ns>`.
    pub open spec fn result_text(self, style: StyleConfigView, show_duration: bool) -> Seq<char> {
        if self.syscall.is_exit() {
            "?"@
        } else {
            style.styled(style.for_ret_code(self.result), self.result.text()) + if show_duration {
                " <"@ + numeral(self.nanos, Radix::Decimal) + ".000000ns>"@
            } else {
                Seq::empty()
            }
        }
    }

    /// The number of the call as a trace line shows it: flush right in its field, with a blank
    /// after it, or not at all.
    pub open spec fn number_text(self, show_syscall_num: bool) -> Seq<char> {
        if show_syscall_num {
            right_aligned(decimal(self.syscall.num), NUMBER_WIDTH as nat) + " "@
        } else {
            Seq::empty()
        }
    }

    /// What a trace line shows before the arguments: the process id in square brackets, the
    /// number of the call where it is asked for, the name of the call, and the opening bracket.
    pub open spec fn head_text(self, style: StyleConfigView, show_syscall_num: bool) -> Seq<char> {
        "["@ + style.styled(style.pid, decimal(self.pid)) + "] "@ + self.number_text(
            show_syscall_num,
        ) + style.styled(style.syscall, self.syscall.name) + "("@
    }

    /// The trace line of the call: the head, the arguments, ` = ` after the closing bracket,
    /// the result, and a line feed.
    pub open spec fn trace_line(
        self,
        style: StyleConfigView,
        string_limit: Option<usize>,
        show_syscall_num: bool,
        show_duration: bool,
    ) -> Seq<char> {
        self.head_text(style, show_syscall_num) + args_text(self.args, string_limit) + ") = "@
            + self.result_text(style, show_duration) + "\n"@
    }

    /// The structured record of the call: seven fields, in this order. The return code stands
    /// under the name of its kind, beside the other fields and not inside one of its own.
    pub open spec fn record(self) -> Seq<EntryView> {
        seq![
            EntryView { key: "type"@, value: FieldView::Scalar(ValueView::Text(self.typ)) },
            EntryView { key: "pid"@, value: FieldView::Scalar(ValueView::Number(self.pid)) },
            EntryView { key: "num"@, value: FieldView::Scalar(ValueView::Number(self.syscall.num)) },
            EntryView {
                key: "syscall"@,
                value: FieldView::Scalar(ValueView::Text(self.syscall.name)),
            },
            EntryView { key: "args"@, value: FieldView::List(args_values(self.args)) },
            EntryView { key: self.result.key(), value: FieldView::Scalar(self.result.value()) },
            EntryView { key: "duration"@, value: FieldView::Duration(self.nanos) },
        ]
    }
}

impl SyscallInfo {
    /// The record of a call that has just returned.
    pub fn new(
        pid: i32,
        syscall: Syscall,
        ret_code: RetCode,
        args: SyscallArgs,
        duration: Elapsed,
    ) -> (info: SyscallInfo)
        ensures
            info@ == (InfoView {
                typ: "SYSCALL"@,
                pid: pid as int,
                syscall: syscall@,
                args: args@,
                result: ret_code,
                nanos: duration.nanos as nat,
            }),
    {
        SyscallInfo { typ: "SYSCALL", pid, syscall, args, result: ret_code, duration }
    }

    /// Appends what a trace line shows before the arguments.
    fn write_head(&self, style: &StyleConfig, show_syscall_num: bool, output: &mut String)
        ensures
            final(output)@ == old(output)@ + self@.head_text(style@, show_syscall_num),
    {
        let ghost start = output@;
        let mut pid = String::new();
        push_decimal(&mut pid, self.pid as i64);
        output.append("[");
        let ghost mut done = "["@;
        style.write_styled(&style.pid, pid.as_str(), output);
        proof {
            let piece = style@.styled(style@.pid, pid@);
            lemma_concat_associative(start, done, piece);
            done = done + piece;
        }
        output.append("] ");
        proof {
            lemma_concat_associative(start, done, "] "@);
            done = done + "] "@;
        }
        if show_syscall_num {
            let mut number = String::new();
            push_decimal(&mut number, self.syscall.num as i64);
            let ghost before = output@;
            push_right_aligned(output, number.as_str(), NUMBER_WIDTH);
            output.append(" ");
            proof {
                let aligned = right_aligned(number@, NUMBER_WIDTH as nat);
                lemma_concat_associative(before, aligned, " "@);
                lemma_concat_associative(start, done, aligned + " "@);
            }
        } else {
            assert(output@ =~= start + (done + Seq::<char>::empty()));
        }
        proof {
            done = done + self@.number_text(show_syscall_num);
        }
        assert(output@ == start + done);
        style.write_styled(&style.syscall, self.syscall.name.as_str(), output);
        proof {
            let piece = style@.styled(style@.syscall, self.syscall.name@);
            lemma_concat_associative(start, done, piece);
            done = done + piece;
        }
        output.append("(");
        proof {
            lemma_concat_associative(start, done, "("@);
        }
    }

    /// Appends what a trace line shows after the `=`.
    fn write_result(&self, style: &StyleConfig, show_duration: bool, output: &mut String)
        ensures
            final(output)@ == old(output)@ + self@.result_text(style@, show_duration),
    {
        if self.syscall.is_exit() {
            output.append("?");
        } else {
            let ghost start = output@;
            let result = self.result.render_text();
            style.write_styled(style.from_ret_code(self.result), result.as_str(), output);
            let ghost code = style@.styled(style@.for_ret_code(self.result), self.result.text());
            if show_duration {
                let ghost before = output@;
                output.append(" <");
                push_numeral(output, self.duration.nanos, Radix::Decimal);
                output.append(".000000ns>");
                proof {
                    let count = numeral(self.duration.nanos as nat, Radix::Decimal);
                    lemma_concat_associative(before, " <"@, count);
                    lemma_concat_associative(before, " <"@ + count, ".000000ns>"@);
                    lemma_concat_associative(start, code, " <"@ + count + ".000000ns>"@);
                }
            } else {
                assert(output@ =~= start + (code + Seq::<char>::empty()));
            }
        }
    }

    /// Appends the trace line of the call to `output`: one line, ended by a line feed.
    pub fn write_syscall(
        &self,
        style: StyleConfig,
        string_limit: Option<usize>,
        show_syscall_num: bool,
        show_duration: bool,
        output: &mut String,
    )
        ensures
            final(output)@ == old(output)@ + self@.trace_line(
                style@,
                string_limit,
                show_syscall_num,
                show_duration,
            ),
    {
        let ghost start = output@;
        self.write_head(&style, show_syscall_num, output);
        let ghost mut done = self@.head_text(style@, show_syscall_num);
        self.args.write(output, string_limit);
        proof {
            let piece = args_text(self@.args, string_limit);
            lemma_concat_associative(start, done, piece);
            done = done + piece;
        }
        output.append(") = ");
        proof {
            lemma_concat_associative(start, done, ") = "@);
            done = done + ") = "@;
        }
        self.write_result(&style, show_duration, output);
        proof {
            let piece = self@.result_text(style@, show_duration);
            lemma_concat_associative(start, done, piece);
            done = done + piece;
        }
        output.append("\n");
        proof {
            lemma_concat_associative(start, done, "\n"@);
        }
    }

    /// The structured record of the call.
    pub fn serialize(&self) -> (entries: Vec<Entry>)
        ensures
            entries_view(entries@) == self@.record(),
    {
        let mut entries: Vec<Entry> = Vec::new();
        entries.push(
            Entry {
                key: String::from_str("type"),
                value: Field::Scalar(Value::Text(String::from_str(self.typ))),
            },
        );
        entries.push(
            Entry { key: String::from_str("pid"), value: Field::Scalar(Value::Number(self.pid as i64)) },
        );
        entries.push(
            Entry {
                key: String::from_str("num"),
                value: Field::Scalar(Value::Number(self.syscall.num as i64)),
            },
        );
        entries.push(
            Entry {
                key: String::from_str("syscall"),
                value: Field::Scalar(Value::Text(self.syscall.name.clone())),
            },
        );
        entries.push(Entry { key: String::from_str("args"), value: Field::List(self.args.serialize()) });
        entries.push(
            Entry {
                key: String::from_str(self.result.key_name()),
                value: Field::Scalar(self.result.to_value()),
            },
        );
        entries.push(Entry { key: String::from_str("duration"), value: Field::Duration(self.duration) });
        proof {
            assert(entries_view(entries@) =~= self@.record());
        }
        entries
    }
}

/// A call that ends the process shows no result and no duration: after the `=` of its trace
/// line stands a question mark and the line feed, whatever the return code, the duration and
/// the wish for a duration are.
pub proof fn lemma_exit_shows_no_result(
    info: InfoView,
    style: StyleConfigView,
    string_limit: Option<usize>,
    show_syscall_num: bool,
    show_duration: bool,
)
    requires
        info.syscall.is_exit(),
    ensures
        info.result_text(style, show_duration) == "?"@,
        info.trace_line(style, string_limit, show_syscall_num, show_duration) == info.head_text(
            style,
            show_syscall_num,
        ) + args_text(info.args, string_limit) + ") = "@ + "?"@ + "\n"@,
        info.trace_line(style, string_limit, show_syscall_num, show_duration) == info.trace_line(
            style,
            string_limit,
            show_syscall_num,
            false,
        ),
{
}

/// A trace line is one line: whatever the call and the options are, it ends with a line feed.
pub proof fn lemma_line_ends_with_line_feed(
    info: InfoView,
    style: StyleConfigView,
    string_limit: Option<usize>,
    show_syscall_num: bool,
    show_duration: bool,
)
    ensures
        info.trace_line(style, string_limit, show_syscall_num, show_duration).len() > 0,
        info.trace_line(style, string_limit, show_syscall_num, show_duration).last() == '\n',
{
    reveal_strlit("\n");
}

/// Whether a name is one of the three under which a return code can stand.
pub open spec fn is_result_key(key: Seq<char>) -> bool {
    key == "success"@ || key == "error"@ || key == "result"@
}

/// A record has seven fields, and exactly one of them, the sixth, stands under a name of a
/// return code: the name of the kind that the return code of the call has.
pub proof fn lemma_record_names_result_once(info: InfoView)
    ensures
        info.record().len() == 7,
        info.record()[5].key == info.result.key(),
        forall|i: int| 0 <= i < 7 ==> (is_result_key(#[trigger] info.record()[i].key) <==> i == 5),
{
    reveal_strlit("success");
    reveal_strlit("error");
    reveal_strlit("result");
    reveal_strlit("type");
    reveal_strlit("pid");
    reveal_strlit("num");
    reveal_strlit("syscall");
    reveal_strlit("args");
    reveal_strlit("duration");
    let record = info.record();
    assert forall|i: int| 0 <= i < 7 implies (is_result_key(#[trigger] record[i].key) <==> i
        == 5) by {
        let key = record[i].key;
        if i != 5 {
            assert(key.len() != 5 || key[0] != 'e');
            assert(key.len() != 6);
            assert(key.len() != 7 || key[1] != 'u');
        }
    }
}

} // verus!
