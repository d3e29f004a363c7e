use deepflow_agent::process::{
    check_version, exec_link, free_memory_percentage, kernel_release, lists_children, memory_rss,
    parse_unsigned, process_num, status_matches, test_file_name, thread_num, ExecLink, StatusFault,
};

const STATUS: &[u8] = b"Name:\tagent\nUmask:\t0022\nState:\tS (sleeping)\nPid:\t4242\nPPid:\t1\n\
VmPeak:\t  200000 kB\nVmRSS:\t   12345 kB\nThreads:\t8\n";

#[test]
fn resident_memory() {
    assert_eq!(memory_rss(STATUS), Some(12345 << 10));
    assert_eq!(memory_rss(b"VmRSS:\t1 kB"), Some(1024));
    assert_eq!(memory_rss(b"VmRSS: +7"), Some(7168));
    assert_eq!(memory_rss(b"VmRSS 3 4"), Some(3072));
    assert_eq!(memory_rss(b"\n\nVmRSS:\t0 kB\r\n"), Some(0));
    assert_eq!(memory_rss(b""), None);
    assert_eq!(memory_rss(b"Name:\tagent\n"), None);
    assert_eq!(memory_rss(b" VmRSS:\t1 kB"), None);
    assert_eq!(memory_rss(b"VmRSS:\tkB\n"), None);
    assert_eq!(memory_rss(b"VmRSS:\t-1 kB\n"), None);
    assert_eq!(memory_rss(b"VmRSS:1 kB\n"), None);
    // the first line of that name decides
    assert_eq!(memory_rss(b"VmRSS:\tnone\nVmRSS:\t5 kB\n"), None);
    // what 64 bits cannot hold is no number, and what they hold is shifted within them
    assert_eq!(memory_rss(b"VmRSS: 18446744073709551616 kB"), None);
    assert_eq!(memory_rss(b"VmRSS: 18446744073709551615 kB"), Some(u64::MAX - 1023));
    assert_eq!(memory_rss(b"VmRSS: 18446744073709551616 9"), Some(9216));
}

#[test]
fn threads() {
    assert_eq!(thread_num(STATUS), Ok(8));
    assert_eq!(thread_num(b"Threads:\t8 \r\n"), Ok(8));
    assert_eq!(thread_num(b"Threads:\t1\t2"), Ok(2));
    assert_eq!(thread_num(b"Threads:\t4294967295"), Ok(u32::MAX));
    assert_eq!(thread_num(b"Threads:\t4294967296"), Err(StatusFault::InvalidData));
    assert_eq!(thread_num(b"Threads: 8"), Err(StatusFault::InvalidData));
    assert_eq!(thread_num(b"Threads:\t"), Err(StatusFault::InvalidData));
    assert_eq!(thread_num(b"Threads:\teight\nThreads:\t8"), Err(StatusFault::InvalidData));
    assert_eq!(thread_num(b"Name:\tagent\n"), Err(StatusFault::NotFound));
    assert_eq!(thread_num(b""), Err(StatusFault::NotFound));
}

#[test]
fn entries_of_a_status() {
    assert_eq!(status_matches(STATUS, b"Name:", b"agent"), 1);
    assert_eq!(status_matches(STATUS, b"Name:", b"agen"), 0);
    assert_eq!(status_matches(STATUS, b"PPid:", b"1"), 1);
    assert_eq!(status_matches(STATUS, b"PPid:", b"4242"), 0);
    assert_eq!(status_matches(STATUS, b"Pid:", b"4242"), 1);
    assert_eq!(status_matches(STATUS, b"Missing:", b"1"), 0);
    assert_eq!(status_matches(b"", b"Name:", b""), 0);
    assert_eq!(status_matches(b"Name:\ta\nName:\ta\nName:\tb\nName:\ta\n", b"Name:", b"a"), 2);
    assert_eq!(status_matches(b"Name:\tb\nName:\ta\n", b"Name:", b"a"), 0);
    assert_eq!(status_matches(b"Name: a", b"Name:", b"a"), 0);
    assert_eq!(status_matches(b"Name:\tx\ta  \n", b"Name:", b"a"), 1);
    assert_eq!(status_matches(b"a\tb\nc\tb", b"", b"b"), 2);
}

#[test]
fn children() {
    assert_eq!(process_num(b"12 34 56\n"), 4);
    assert_eq!(process_num(b""), 1);
    assert_eq!(process_num(b" \n"), 1);
    assert_eq!(process_num(b"7"), 2);
    assert_eq!(process_num(b"12  34"), 3);
    assert_eq!(process_num(b"12 x 34 -5 +6"), 4);
    assert_eq!(process_num(b"12\t34"), 1);
    assert_eq!(process_num(b"4294967295 4294967296"), 2);
}

#[test]
fn kernels() {
    assert_eq!(kernel_release(b"5.4.0-42-generic\n"), (5, 4));
    assert_eq!(kernel_release(b"3.10.0"), (3, 10));
    assert_eq!(kernel_release(b" 2.6.32 "), (2, 6));
    assert_eq!(kernel_release(b"4"), (4, 6));
    assert_eq!(kernel_release(b""), (2, 6));
    assert_eq!(kernel_release(b"x.y"), (2, 6));
    assert_eq!(kernel_release(b"x.19"), (2, 19));
    assert_eq!(kernel_release(b"300.1"), (2, 1));
    assert_eq!(kernel_release(b"5.4-rc1"), (5, 6));
    assert_eq!(kernel_release(b"5..4"), (5, 6));
    assert_eq!(kernel_release(b"255.255"), (255, 255));
    assert!(lists_children(3, 5));
    assert!(lists_children(4, 0));
    assert!(lists_children(5, 4));
    assert!(!lists_children(3, 4));
    assert!(!lists_children(2, 6));
}

#[test]
fn texts_of_numbers() {
    assert_eq!(parse_unsigned(b"x123y", 1, 4, 255), Some(123));
    assert_eq!(parse_unsigned(b"256", 0, 3, 255), None);
    assert_eq!(parse_unsigned(b"255", 0, 3, 255), Some(255));
    assert_eq!(parse_unsigned(b"+0", 0, 2, 0), Some(0));
    assert_eq!(parse_unsigned(b"007", 0, 3, 7), Some(7));
    assert_eq!(parse_unsigned(b"+", 0, 1, 9), None);
    assert_eq!(parse_unsigned(b"++1", 0, 3, 9), None);
    assert_eq!(parse_unsigned(b"-0", 0, 2, 9), None);
    assert_eq!(parse_unsigned(b"1 ", 0, 2, 9), None);
    assert_eq!(parse_unsigned(b"12", 1, 1, 9), None);
    assert_eq!(parse_unsigned(b"18446744073709551615", 0, 20, u64::MAX), Some(u64::MAX));
    assert_eq!(parse_unsigned(b"18446744073709551616", 0, 20, u64::MAX), None);
    assert_eq!(parse_unsigned(b"99999999999999999999999999999999999999999", 0, 41, u64::MAX), None);
    for n in [0u64, 9, 10, 4096, u32::MAX as u64, u64::MAX] {
        let text = n.to_string();
        assert_eq!(parse_unsigned(text.as_bytes(), 0, text.len(), u64::MAX), Some(n));
    }
}

#[test]
fn free_memory() {
    assert_eq!(free_memory_percentage(1000, 500), 50);
    assert_eq!(free_memory_percentage(16_000_000, 4_000_000), 25);
    assert_eq!(free_memory_percentage(101, 101), 101);
    assert_eq!(free_memory_percentage(199, 100), 100);
    assert_eq!(free_memory_percentage(100, 50), 0);
    assert_eq!(free_memory_percentage(0, 0), 0);
    assert_eq!(free_memory_percentage(200, 0), 0);
    assert_eq!(free_memory_percentage(101, u64::MAX), u32::MAX);
}

#[test]
fn the_binary_that_is_tried() {
    assert_eq!(test_file_name(b"agent"), b"agent.test");
    assert_eq!(test_file_name(b"agent (deleted)"), b"agent.test");
    assert_eq!(test_file_name(b"agent (deleted) (deleted)"), b"agent.test");
    assert_eq!(test_file_name(b"agent (deleted) "), b"agent (deleted) .test");
    assert_eq!(test_file_name(b" (deleted)"), b".test");
    assert_eq!(test_file_name(b"(deleted)"), b"(deleted).test");
    assert_eq!(test_file_name(b""), b".test");
    assert_eq!(exec_link("Linux"), Some(ExecLink::Linux));
    assert_eq!(exec_link("NetBSD"), Some(ExecLink::NetBsd));
    assert_eq!(exec_link("FreeBSD"), Some(ExecLink::FreeBsd));
    assert_eq!(exec_link("OpenBSD"), Some(ExecLink::FreeBsd));
    assert_eq!(exec_link("DragonFly"), Some(ExecLink::FreeBsd));
    assert_eq!(exec_link("Solaris"), Some(ExecLink::Solaris));
    assert_eq!(exec_link("linux"), None);
    assert_eq!(exec_link("Darwin"), None);
    assert_eq!(exec_link(""), None);

    assert!(check_version(b"v6.1 2022-08-01\n", b"v6.1-2022"));
    assert!(check_version(b"v6.1-2022", b"v6.1-2022"));
    assert!(check_version(b"v6.1", b""));
    assert!(check_version(b"", b""));
    // only the first space is made a hyphen
    assert!(check_version(b"a b c", b"a-b c"));
    assert!(!check_version(b"a b c", b"a-b-c"));
    assert!(!check_version(b"a b c", b"a b"));
    assert!(!check_version(b"v6.0 2022", b"v6.1"));
    assert!(!check_version(b"v6", b"v6.1"));
    // what is no text cannot be held against the binary
    assert!(check_version(b"\xff\xfe", b"v6.1"));
}
