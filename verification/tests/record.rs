use serde::ser::{Serialize, SerializeMap, SerializeSeq, Serializer};
use syscall_info::arg::{SyscallArg, SyscallArgs};
use syscall_info::info::SyscallInfo;
use syscall_info::record::{Elapsed, Entry, Field, Value};
use syscall_info::retcode::RetCode;
use syscall_info::syscall::Syscall;

struct JsonValue<'a>(&'a Value);

struct JsonField<'a>(&'a Field);

struct JsonRecord<'a>(&'a [Entry]);

impl Serialize for JsonValue<'_> {
    fn serialize<S: Serializer>(&self, serializer: S) -> Result<S::Ok, S::Error> {
        match self.0 {
            Value::Number(n) => serializer.serialize_i64(*n),
            Value::Text(text) => serializer.serialize_str(text),
        }
    }
}

impl Serialize for JsonField<'_> {
    fn serialize<S: Serializer>(&self, serializer: S) -> Result<S::Ok, S::Error> {
        match self.0 {
            Field::Scalar(value) => JsonValue(value).serialize(serializer),
            Field::List(values) => {
                let mut seq = serializer.serialize_seq(Some(values.len()))?;
                for value in values {
                    seq.serialize_element(&JsonValue(value))?;
                }
                seq.end()
            }
            Field::Duration(elapsed) => {
                let secs = (elapsed.nanos / 1_000_000_000) as u64;
                let nanos = (elapsed.nanos % 1_000_000_000) as u32;
                serializer.serialize_f64(std::time::Duration::new(secs, nanos).as_secs_f64())
            }
        }
    }
}

impl Serialize for JsonRecord<'_> {
    fn serialize<S: Serializer>(&self, serializer: S) -> Result<S::Ok, S::Error> {
        let mut map = serializer.serialize_map(Some(self.0.len()))?;
        for entry in self.0 {
            map.serialize_entry(&entry.key, &JsonField(&entry.value))?;
        }
        map.end()
    }
}

fn json(info: &SyscallInfo) -> String {
    serde_json::to_string(&JsonRecord(&info.serialize())).unwrap()
}

fn observed_read() -> SyscallInfo {
    SyscallInfo::new(
        1234,
        Syscall::new(0, "read".to_string()),
        RetCode::from_raw(64),
        SyscallArgs(vec![SyscallArg::Int(3), SyscallArg::Addr(0x7fffdead), SyscallArg::Int(128)]),
        Elapsed { nanos: 123_000 },
    )
}

fn entry(key: &str, value: Field) -> Entry {
    Entry { key: key.to_string(), value }
}

fn text(value: &str) -> Field {
    Field::Scalar(Value::Text(value.to_string()))
}

fn number(value: i64) -> Field {
    Field::Scalar(Value::Number(value))
}

#[test]
fn read_call_as_a_record() {
    assert_eq!(
        observed_read().serialize(),
        vec![
            entry("type", text("SYSCALL")),
            entry("pid", number(1234)),
            entry("num", number(0)),
            entry("syscall", text("read")),
            entry(
                "args",
                Field::List(vec![
                    Value::Number(3),
                    Value::Text("0x7fffdead".to_string()),
                    Value::Number(128),
                ])
            ),
            entry("success", number(64)),
            entry("duration", Field::Duration(Elapsed { nanos: 123_000 })),
        ]
    );
}

#[test]
fn read_call_as_json() {
    assert_eq!(
        json(&observed_read()),
        "{\"type\":\"SYSCALL\",\"pid\":1234,\"num\":0,\"syscall\":\"read\",\"args\":[3,\"0x7fffdead\",128],\"success\":64,\"duration\":0.000123}"
    );
}

#[test]
fn record_has_seven_fields_in_a_fixed_order() {
    let calls = [
        observed_read(),
        SyscallInfo::new(
            1,
            Syscall::new(60, "exit".to_string()),
            RetCode::from_raw(u64::MAX),
            SyscallArgs(Vec::new()),
            Elapsed { nanos: 0 },
        ),
        SyscallInfo::new(
            1,
            Syscall::new(9, "mmap".to_string()),
            RetCode::from_raw(0x7fff_f700_1000),
            SyscallArgs(vec![SyscallArg::Bytes(b"x".to_vec())]),
            Elapsed { nanos: 5 },
        ),
    ];
    for info in calls.iter() {
        let keys: Vec<String> = info.serialize().into_iter().map(|entry| entry.key).collect();
        assert_eq!(keys.len(), 7);
        assert_eq!(&keys[..5], &["type", "pid", "num", "syscall", "args"]);
        assert_eq!(keys[5], info.result.key_name());
        assert_eq!(keys[6], "duration");
        let named = keys
            .iter()
            .filter(|key| ["success", "error", "result"].contains(&key.as_str()))
            .count();
        assert_eq!(named, 1);
    }
}

#[test]
fn error_stands_under_its_own_key() {
    let info = SyscallInfo::new(
        10,
        Syscall::new(2, "open".to_string()),
        RetCode::from_raw((-2i64) as u64),
        SyscallArgs(vec![SyscallArg::Bytes(b"/nope".to_vec()), SyscallArg::Int(0)]),
        Elapsed { nanos: 1_000_000_000 },
    );
    let entries = info.serialize();
    assert_eq!(entries[5], entry("error", number(-2)));
    assert_eq!(
        json(&info),
        "{\"type\":\"SYSCALL\",\"pid\":10,\"num\":2,\"syscall\":\"open\",\"args\":[\"/nope\",0],\"error\":-2,\"duration\":1.0}"
    );
}

#[test]
fn address_stands_under_result_in_lower_case_hex() {
    let info = SyscallInfo::new(
        10,
        Syscall::new(9, "mmap".to_string()),
        RetCode::from_raw(0x7fff_f700_1000),
        SyscallArgs(vec![SyscallArg::Addr(0), SyscallArg::Int(4096)]),
        Elapsed { nanos: 2_500_000 },
    );
    let entries = info.serialize();
    assert_eq!(entries[5], entry("result", text("0x7ffff7001000")));
    assert_eq!(
        json(&info),
        "{\"type\":\"SYSCALL\",\"pid\":10,\"num\":9,\"syscall\":\"mmap\",\"args\":[\"0x0\",4096],\"result\":\"0x7ffff7001000\",\"duration\":0.0025}"
    );
}

#[test]
fn exit_call_keeps_its_return_code_in_the_record() {
    let info = SyscallInfo::new(
        10,
        Syscall::new(231, "exit_group".to_string()),
        RetCode::from_raw(0),
        SyscallArgs(vec![SyscallArg::Int(0)]),
        Elapsed { nanos: 0 },
    );
    assert_eq!(
        json(&info),
        "{\"type\":\"SYSCALL\",\"pid\":10,\"num\":231,\"syscall\":\"exit_group\",\"args\":[0],\"success\":0,\"duration\":0.0}"
    );
}

#[test]
fn byte_buffers_are_whole_and_escaped_in_the_record() {
    let info = SyscallInfo::new(
        10,
        Syscall::new(1, "write".to_string()),
        RetCode::from_raw(6),
        SyscallArgs(vec![SyscallArg::Int(1), SyscallArg::Bytes(b"a\"b\\\n".to_vec()), SyscallArg::Int(5)]),
        Elapsed { nanos: 0 },
    );
    assert_eq!(
        info.serialize()[4],
        entry(
            "args",
            Field::List(vec![
                Value::Number(1),
                Value::Text("a\"b\\\\\\x0a".to_string()),
                Value::Number(5),
            ])
        )
    );
    let mut line = String::new();
    info.write_syscall(syscall_info::style::StyleConfig::plain(), None, false, false, &mut line);
    assert_eq!(line, "[10] write(1, \"a\\\"b\\\\\\\\\\\\x0a\", 5) = 6\n");
    assert!(json(&info).contains("\"args\":[1,\"a\\\"b\\\\\\\\\\\\x0a\",5]"));
}

#[test]
fn serializing_leaves_the_call_unchanged() {
    let info = observed_read();
    let before = info.clone();
    let first = info.serialize();
    let second = info.serialize();
    assert_eq!(first, second);
    assert_eq!(info, before);
}
