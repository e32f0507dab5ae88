use pid_from_port::{
    column_layout, find_pid, pid_from_port, ColumnLayout, CommandOutcome, LookupError, Platform,
};

fn macos_table() -> String {
    [
        "Active Internet connections (including servers)",
        "Proto Recv-Q Send-Q  Local Address          Foreign Address        (state)     rhiwat shiwat    pid   epid",
        "tcp4       0      0  10.8.8.148.22417       17.57.144.20.5223      ESTABLISHED 131072 131768    312      0",
        "tcp4       0      0  127.0.0.1.61233        *.*                    LISTEN      131072 131072   4242      0",
        "tcp4       0      0  *.22                   *.*                    LISTEN      131072 131072      1      0",
        "tcp6       0      0  *.22                   *.*                    LISTEN      131072 131072      7      0",
        "",
    ]
    .join("\n")
}

fn linux_table() -> String {
    [
        "Netid State  Recv-Q Send-Q Local Address:Port  Peer Address:Port Process",
        "udp   UNCONN 0      0      127.0.0.53%lo:53    0.0.0.0:*         users:((\"systemd-resolve\",pid=612,fd=13))",
        "tcp   LISTEN 0      128    0.0.0.0:22          0.0.0.0:*         users:((\"sshd\",pid=812,fd=3))",
        "tcp   LISTEN 0      128    127.0.0.1:631       0.0.0.0:*",
        "tcp   LISTEN 0      128    [::1]:8080          [::]:*            4321",
        "",
    ]
    .join("\n")
}

fn windows_table() -> String {
    [
        "",
        "Active Connections",
        "",
        "  Proto  Local Address          Foreign Address        State           PID",
        "  TCP    0.0.0.0:135            0.0.0.0:0              LISTENING       1052",
        "  TCP    [::]:445               [::]:0                 LISTENING       4",
        "  UDP    0.0.0.0:5353           *:*                                    2844",
        "",
    ]
    .join("\r\n")
}

fn ran(table: String) -> CommandOutcome {
    CommandOutcome::Exited { code: Some(0), stdout: table.into_bytes() }
}

fn layout(platform: Platform) -> ColumnLayout {
    column_layout(platform).unwrap()
}

#[test]
fn test_pid_from_port_unused_port() {
    let res = pid_from_port(0, Platform::MacOs, &ran(macos_table()));
    assert!(res.is_err())
}

#[test]
fn test_pid_from_port_used_port() {
    let res = pid_from_port(22, Platform::MacOs, &ran(macos_table()));
    assert!(res.is_ok())
}

#[test]
fn test_pid_from_port_is_1_for_port_22() {
    let res = pid_from_port(22, Platform::MacOs, &ran(macos_table()));
    assert_eq!(res.unwrap(), 1);
}

#[test]
fn finds_the_pid_behind_a_composite_address() {
    let run = ran(macos_table());
    assert_eq!(pid_from_port(22417, Platform::MacOs, &run), Ok(312));
    assert_eq!(pid_from_port(61233, Platform::MacOs, &run), Ok(4242));
}

#[test]
fn foreign_port_is_not_looked_at() {
    let res = pid_from_port(5223, Platform::MacOs, &ran(macos_table()));
    assert_eq!(res, Err(LookupError::NoProcessForPort { port: 5223 }));
}

#[test]
fn unused_port_is_reported_with_its_number() {
    let run = ran(macos_table());
    for port in [0u16, 1, 23, 2241, 22418, 65535] {
        assert_eq!(
            pid_from_port(port, Platform::MacOs, &run),
            Err(LookupError::NoProcessForPort { port })
        );
    }
}

#[test]
fn boundary_ports_are_accepted() {
    let table = "tcp4 0 0 *.0 *.* LISTEN 1 1 10 0\ntcp4 0 0 *.65535 *.* LISTEN 1 1 20 0\n";
    assert_eq!(find_pid(table, layout(Platform::MacOs), 0), Ok(10));
    assert_eq!(find_pid(table, layout(Platform::MacOs), 65535), Ok(20));
    let empty = ran(String::new());
    assert_eq!(
        pid_from_port(0, Platform::Linux, &empty),
        Err(LookupError::NoProcessForPort { port: 0 })
    );
    assert_eq!(
        pid_from_port(65535, Platform::Linux, &empty),
        Err(LookupError::NoProcessForPort { port: 65535 })
    );
}

#[test]
fn port_beyond_sixteen_bits_names_no_port() {
    let table = "tcp4 0 0 *.65536 *.* LISTEN 1 1 10 0\ntcp4 0 0 *.70000 *.* LISTEN 1 1 20 0\n";
    assert_eq!(
        find_pid(table, layout(Platform::MacOs), 0),
        Err(LookupError::NoProcessForPort { port: 0 })
    );
    assert_eq!(
        find_pid(table, layout(Platform::MacOs), 4464),
        Err(LookupError::NoProcessForPort { port: 4464 })
    );
}

#[test]
fn first_row_about_the_port_decides() {
    let table = macos_table();
    assert_eq!(find_pid(&table, layout(Platform::MacOs), 22), Ok(1));
    let swapped = "tcp6 0 0 *.22 *.* LISTEN 1 1 7 0\ntcp4 0 0 *.22 *.* LISTEN 1 1 1 0\n";
    assert_eq!(find_pid(swapped, layout(Platform::MacOs), 22), Ok(7));
    let broken_first = "tcp6 0 0 *.22 *.* LISTEN 1 1 x 0\ntcp4 0 0 *.22 *.* LISTEN 1 1 1 0\n";
    assert_eq!(
        find_pid(broken_first, layout(Platform::MacOs), 22),
        Err(LookupError::PidParseError { token: "x".to_string() })
    );
}

#[test]
fn unsupported_platform_fails_whatever_the_command_did() {
    assert_eq!(
        pid_from_port(22, Platform::Other, &ran(macos_table())),
        Err(LookupError::UnsupportedPlatform)
    );
    assert_eq!(
        pid_from_port(22, Platform::Other, &CommandOutcome::SpawnFailed),
        Err(LookupError::UnsupportedPlatform)
    );
}

#[test]
fn command_that_did_not_start_is_reported() {
    assert_eq!(
        pid_from_port(22, Platform::Linux, &CommandOutcome::SpawnFailed),
        Err(LookupError::CommandExecutionFailed)
    );
}

#[test]
fn command_that_failed_is_reported_with_its_code() {
    let stdout = macos_table().into_bytes();
    let failed = CommandOutcome::Exited { code: Some(1), stdout: stdout.clone() };
    assert_eq!(
        pid_from_port(22, Platform::MacOs, &failed),
        Err(LookupError::CommandNonZeroExit { code: Some(1) })
    );
    let negative = CommandOutcome::Exited { code: Some(-1), stdout: stdout.clone() };
    assert_eq!(
        pid_from_port(22, Platform::MacOs, &negative),
        Err(LookupError::CommandNonZeroExit { code: Some(-1) })
    );
    let killed = CommandOutcome::Exited { code: None, stdout };
    assert_eq!(
        pid_from_port(22, Platform::MacOs, &killed),
        Err(LookupError::CommandNonZeroExit { code: None })
    );
}

#[test]
fn linux_process_column_is_not_a_number() {
    let run = ran(linux_table());
    assert_eq!(
        pid_from_port(22, Platform::Linux, &run),
        Err(LookupError::PidParseError { token: "users:((\"sshd\",pid=812,fd=3))".to_string() })
    );
    assert_eq!(
        pid_from_port(53, Platform::Linux, &run),
        Err(LookupError::PidParseError {
            token: "users:((\"systemd-resolve\",pid=612,fd=13))".to_string()
        })
    );
    assert_eq!(pid_from_port(8080, Platform::Linux, &run), Ok(4321));
}

#[test]
fn row_that_ends_before_the_pid_is_reported() {
    let run = ran(linux_table());
    assert_eq!(
        pid_from_port(631, Platform::Linux, &run),
        Err(LookupError::PidColumnMissing {
            line: "tcp   LISTEN 0      128    127.0.0.1:631       0.0.0.0:*".to_string(),
            offset: 1,
        })
    );
}

#[test]
fn windows_rows_are_read_in_capitals_and_with_carriage_returns() {
    let run = ran(windows_table());
    assert_eq!(pid_from_port(135, Platform::Windows, &run), Ok(1052));
    assert_eq!(pid_from_port(445, Platform::Windows, &run), Ok(4));
    assert_eq!(
        pid_from_port(5353, Platform::Windows, &run),
        Err(LookupError::PidColumnMissing {
            line: "  UDP    0.0.0.0:5353           *:*                                    2844"
                .to_string(),
            offset: 2,
        })
    );
}

#[test]
fn line_endings_are_not_part_of_the_reported_line() {
    let l = layout(Platform::Windows);
    for (table, line) in [
        ("tcp a:1 b", "tcp a:1 b"),
        ("tcp a:1 b\n", "tcp a:1 b"),
        ("tcp a:1 b\r\n", "tcp a:1 b"),
        ("tcp a:1 b\r\r\n", "tcp a:1 b\r"),
        ("tcp a:1 b\r", "tcp a:1 b\r"),
        ("\n\r\ntcp a:1 b \nudp a:1 b c 9", "tcp a:1 b "),
    ] {
        assert_eq!(
            find_pid(table, l, 1),
            Err(LookupError::PidColumnMissing { line: line.to_string(), offset: 2 })
        );
        let first = table.lines().find(|row| !row.is_empty()).unwrap();
        assert_eq!(first, line);
    }
}

#[test]
fn lookup_is_repeatable() {
    let run = ran(macos_table());
    let first = pid_from_port(22, Platform::MacOs, &run);
    let second = pid_from_port(22, Platform::MacOs, &run);
    assert_eq!(first, second);
    assert_eq!(first, Ok(1));
    let again = ran(macos_table());
    assert_eq!(pid_from_port(22, Platform::MacOs, &again), first);
}

#[test]
fn rows_about_other_ports_do_not_change_the_result() {
    let l = layout(Platform::MacOs);
    let before = "tcp4 0 0 *.80 *.* LISTEN 1 1 8 0\ntcp4 0 0 *.22 *.* LISTEN 1 1 1 0\n";
    let after = "header\ntcp4 0 0 *.22 *.* LISTEN 1 1 1 0\ntcp4 0 0 *.443 *.* LISTEN 1 1 9 0\n";
    assert_eq!(find_pid(before, l, 22), Ok(1));
    assert_eq!(find_pid(after, l, 22), Ok(1));
}

#[test]
fn invalid_bytes_become_replacement_characters() {
    let mut stdout = b"tcp4 0 0 *.22 *.* LISTEN 1 1 1".to_vec();
    stdout.push(0xFF);
    stdout.extend_from_slice(b" 0\n");
    let run = CommandOutcome::Exited { code: Some(0), stdout };
    assert_eq!(
        pid_from_port(22, Platform::MacOs, &run),
        Err(LookupError::PidParseError { token: "1\u{FFFD}".to_string() })
    );
    let mut stdout = b"tcp4 0 \xC3 *.22 *.* LISTEN 1 1 15 0\n".to_vec();
    stdout.extend_from_slice(b"tcp4 0 \xE2\x82 *.23 *.* LISTEN 1 1 16 0\n");
    let run = CommandOutcome::Exited { code: Some(0), stdout };
    assert_eq!(pid_from_port(22, Platform::MacOs, &run), Ok(15));
    assert_eq!(pid_from_port(23, Platform::MacOs, &run), Ok(16));
}

#[test]
fn valid_text_beyond_ascii_is_decoded() {
    let table = "tcp4 0 0 *.22 *.* H\u{00D6}RT 1 1 77 0\n";
    assert_eq!(pid_from_port(22, Platform::MacOs, &ran(table.to_string())), Ok(77));
    let spaced = "tcp4\u{00A0}0\u{2003}0\u{3000}*.22 *.* LISTEN 1 1 78 0\n";
    assert_eq!(pid_from_port(22, Platform::MacOs, &ran(spaced.to_string())), Ok(78));
}

#[test]
fn empty_output_holds_no_process() {
    for text in ["", "\n", "\r\n", "   \n\n"] {
        assert_eq!(
            find_pid(text, layout(Platform::Linux), 22),
            Err(LookupError::NoProcessForPort { port: 22 })
        );
    }
}
