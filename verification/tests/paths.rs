use niri_switch::paths::{decimal_text, read_uid, socket_path, toggle_socket_path, DEFAULT_UID};
use niri_switch::text::{chars_of, white_space};

const STATUS: &str = "Name:\tniri-switch\nUmask:\t0022\nState:\tS (sleeping)\nPid:\t4321\nUid:\t1234\t1234\t1234\t1234\nGid:\t100\t100\t100\t100\n";

#[test]
fn uid_is_the_second_word_of_the_uid_line() {
    assert_eq!(read_uid(Some(STATUS)), 1234);
}

#[test]
fn uid_defaults_where_the_status_was_not_read() {
    assert_eq!(read_uid(None), 1000);
    assert_eq!(DEFAULT_UID, 1000);
}

#[test]
fn uid_defaults_where_there_is_no_uid_line() {
    assert_eq!(read_uid(Some("")), 1000);
    assert_eq!(read_uid(Some("Name:\tx\nGid:\t5\n")), 1000);
    assert_eq!(read_uid(Some(" Uid:\t5\n")), 1000);
    assert_eq!(read_uid(Some("Uid")), 1000);
    assert_eq!(read_uid(Some("uid:\t5\n")), 1000);
}

#[test]
fn uid_defaults_where_the_line_has_no_second_word() {
    assert_eq!(read_uid(Some("Uid:\n")), 1000);
    assert_eq!(read_uid(Some("Uid:")), 1000);
    assert_eq!(read_uid(Some("Uid:55\n")), 1000);
    assert_eq!(read_uid(Some("Uid:   \t \nOther: 7\n")), 1000);
}

#[test]
fn uid_defaults_where_the_second_word_is_no_number() {
    assert_eq!(read_uid(Some("Uid:\troot\n")), 1000);
    assert_eq!(read_uid(Some("Uid:\t-5\n")), 1000);
    assert_eq!(read_uid(Some("Uid:\t+\n")), 1000);
    assert_eq!(read_uid(Some("Uid:\t12a\n")), 1000);
    assert_eq!(read_uid(Some("Uid:\t1.5\n")), 1000);
    assert_eq!(read_uid(Some("Uid:\t4294967296\n")), 1000);
    assert_eq!(read_uid(Some("Uid:\t99999999999999999999999999\n")), 1000);
}

#[test]
fn uid_takes_what_u32_parsing_takes() {
    assert_eq!(read_uid(Some("Uid:\t0\n")), 0);
    assert_eq!(read_uid(Some("Uid:\t+77\n")), 77);
    assert_eq!(read_uid(Some("Uid:\t007\n")), 7);
    assert_eq!(read_uid(Some("Uid:\t4294967295\n")), u32::MAX);
    assert_eq!(read_uid(Some("Uid:\t00000000004294967295\n")), u32::MAX);
    assert_eq!(read_uid(Some("Uid: 5")), 5);
}

#[test]
fn uid_takes_the_second_word_whatever_the_first_is() {
    assert_eq!(read_uid(Some("Uid:1 2 3\n")), 2);
    assert_eq!(read_uid(Some("Uid:\u{a0}\u{2003}42\u{3000}7\n")), 42);
    assert_eq!(read_uid(Some("Uid:\t8\r\n")), 8);
    assert_eq!(read_uid(Some("Uid: x\r\nUid: 9\r\n")), 1000);
}

#[test]
fn uid_comes_from_the_first_uid_line_only() {
    assert_eq!(read_uid(Some("Uid:\t1\nUid:\t2\n")), 1);
    assert_eq!(read_uid(Some("Uid:\tbad\nUid:\t2\n")), 1000);
    assert_eq!(read_uid(Some("Gid:\t3\nUid:\t2")), 2);
    assert_eq!(read_uid(Some("\n\nUid:\t6\n")), 6);
}

#[test]
fn uid_matches_the_standard_library_on_the_same_text() {
    let texts = [STATUS, "Uid:\t+12 4\n", "Uid:\n5\n", "x\nUid: \t 31337 1\ny", "Uid:\t１２\n"];
    for text in texts {
        let expected: u32 = text
            .lines()
            .find(|l| l.starts_with("Uid:"))
            .and_then(|l| l.split_whitespace().nth(1))
            .and_then(|uid| uid.parse().ok())
            .unwrap_or(1000);
        assert_eq!(read_uid(Some(text)), expected);
    }
}

#[test]
fn decimal_text_writes_numbers_without_padding() {
    assert_eq!(decimal_text(0), "0");
    assert_eq!(decimal_text(7), "7");
    assert_eq!(decimal_text(10), "10");
    assert_eq!(decimal_text(1000), "1000");
    assert_eq!(decimal_text(4294967295), "4294967295");
    assert_eq!(decimal_text(1203405), 1203405u32.to_string());
}

#[test]
fn chars_of_lists_the_characters() {
    assert_eq!(chars_of("aé\u{1F600}\n"), vec!['a', 'é', '\u{1F600}', '\n']);
    assert_eq!(chars_of(""), Vec::<char>::new());
}

#[test]
fn white_space_is_the_unicode_property() {
    for code in 0..=0x11_0000u32 {
        if let Some(c) = char::from_u32(code) {
            assert_eq!(white_space(c), c.is_whitespace());
        }
    }
}

#[test]
fn socket_path_prefers_the_override() {
    assert_eq!(
        socket_path(Some("/tmp/niri.sock".to_string()), Some("/run/user/7".to_string()), Some(STATUS))
            .map_err(|e| e.message()),
        Ok("/tmp/niri.sock".to_string())
    );
}

#[test]
fn socket_path_uses_the_runtime_dir() {
    assert_eq!(
        socket_path(None, Some("/run/user/7".to_string()), Some(STATUS)).map_err(|e| e.message()),
        Ok("/run/user/7/niri/socket".to_string())
    );
}

#[test]
fn socket_path_falls_back_to_the_users_directory() {
    assert_eq!(
        socket_path(None, None, Some(STATUS)).map_err(|e| e.message()),
        Ok("/run/user/1234/niri/socket".to_string())
    );
    assert_eq!(
        socket_path(None, None, None).map_err(|e| e.message()),
        Ok("/run/user/1000/niri/socket".to_string())
    );
}

#[test]
fn toggle_socket_path_is_in_the_runtime_dir() {
    assert_eq!(toggle_socket_path(Some("/run/user/7".to_string()), None), "/run/user/7/niri-switch.sock");
    assert_eq!(toggle_socket_path(None, Some(STATUS)), "/run/user/1234/niri-switch.sock");
    assert_eq!(toggle_socket_path(None, None), "/run/user/1000/niri-switch.sock");
    assert_eq!(toggle_socket_path(Some(String::new()), None), "/niri-switch.sock");
}
