use adboost::number::{decimal_string, parse_unsigned};
use adboost::order::{list_contains, sorted_distinct, str_less};
use adboost::protocol::{
    encode_framed, fail, okay, okay_data, okay_tport, okay_twice, okay_twice_with_port,
    parse_hex_len, request_length, request_prefix, request_text, transport_id_for, transport_id_for_index,
    MAX_FRAME,
};
use adboost::words::{any_line_begins, any_line_holds, split_lines, split_words, trim, trim_end};

fn list(v: &[&str]) -> Vec<String> {
    v.iter().map(|t| t.to_string()).collect()
}

#[test]
fn replies_on_the_wire() {
    assert_eq!(okay(), b"OKAY");
    assert_eq!(okay_twice(), b"OKAYOKAY");
    assert_eq!(fail("no"), b"FAIL0002no");
    assert_eq!(okay_data("0029").unwrap(), b"OKAY00040029");
    assert_eq!(okay_twice_with_port(40001), b"OKAYOKAY000540001");
    assert_eq!(okay_tport(0x0102), b"OKAY\x02\x01\0\0\0\0\0\0");
    assert_eq!(encode_framed("").unwrap(), b"0000");
    assert_eq!(encode_framed("\u{e9}").unwrap(), "0002\u{e9}".as_bytes());
}

#[test]
fn lengths_read_back() {
    for len in [0usize, 9, 10, 255, 256, 4095, 65535] {
        let text = "x".repeat(len);
        let framed = encode_framed(&text).unwrap();
        let prefix = [framed[0], framed[1], framed[2], framed[3]];
        assert_eq!(parse_hex_len(&prefix), Some(len));
        assert_eq!(request_length(&prefix), Ok(len));
        assert_eq!(request_text(framed[4..].to_vec()).unwrap(), text);
    }
    assert_eq!(parse_hex_len(b"00Ff"), Some(255));
    assert_eq!(request_length(b"zz00"), Err("non-hex request length prefix"));
    assert_eq!(request_length(b"+00f"), Err("non-hex request length prefix"));
    assert_eq!(request_text(vec![0xff]), Err("non-UTF8 service string"));
    assert!(encode_framed(&"x".repeat(MAX_FRAME + 1)).is_none());
}

#[test]
fn a_long_reason_is_cut_between_characters() {
    let reason = "\u{20ac}".repeat(30000);
    let reply = fail(&reason);
    assert_eq!(&reply[..4], b"FAIL");
    let prefix = [reply[4], reply[5], reply[6], reply[7]];
    let len = parse_hex_len(&prefix).unwrap();
    assert_eq!(len, 65535);
    assert_eq!(reply.len(), 8 + len);
    assert!(String::from_utf8(reply[8..].to_vec()).is_ok());
    let reply = fail(&format!("x{reason}"));
    assert_eq!(parse_hex_len(&[reply[4], reply[5], reply[6], reply[7]]), Some(65533));
}

#[test]
fn transport_ids_number_the_sorted_serials() {
    let serials = list(&["zzz", "aaa", "zzz", "mmm"]);
    assert_eq!(transport_id_for("aaa", &serials), Some(1));
    assert_eq!(transport_id_for("mmm", &serials), Some(2));
    assert_eq!(transport_id_for("zzz", &serials), Some(3));
    assert_eq!(transport_id_for("nope", &serials), None);
    assert_eq!(transport_id_for_index(3, &serials), Some("zzz".to_string()));
    assert_eq!(transport_id_for_index(0, &serials), None);
    assert_eq!(transport_id_for_index(4, &serials), None);
}

#[test]
fn orders_of_texts() {
    for (a, b) in [("", "a"), ("a", "b"), ("a", "ab"), ("Z", "a"), ("10.0.0.5:5555", "usb1")] {
        assert!(str_less(a, b) && !str_less(b, a));
        assert!(a < b);
    }
    assert!(!str_less("a", "a"));
    assert_eq!(sorted_distinct(&list(&["b", "a", "b"])), ["a", "b"]);
    assert!(list_contains(&list(&["a", "b"]), "b"));
    assert!(!list_contains(&list(&["a", "b"]), "c"));
}

#[test]
fn numbers_are_written_and_read() {
    for n in [0u64, 7, 10, 65535, u64::MAX] {
        assert_eq!(decimal_string(n), n.to_string());
        assert_eq!(parse_unsigned(&decimal_string(n), u64::MAX), Some(n));
    }
    for t in ["", "+", "-1", "1 ", "x", "18446744073709551616", "+5", "007"] {
        assert_eq!(parse_unsigned(t, u64::MAX), t.parse::<u64>().ok(), "{t:?}");
    }
    assert_eq!(parse_unsigned("65536", 65535), None);
}

#[test]
fn texts_are_cut_as_the_standard_library_does() {
    for t in ["", "a", " a b\t", "\n", "a\nb", "a\r\nb\r\n", "\n\na\n", "\u{2003}x\u{a0}", "a\rb"] {
        assert_eq!(trim(t), t.trim(), "{t:?}");
        assert_eq!(trim_end(t), t.trim_end(), "{t:?}");
        assert_eq!(split_lines(t), t.lines().collect::<Vec<_>>(), "{t:?}");
        assert_eq!(split_words(t), t.split_whitespace().collect::<Vec<_>>(), "{t:?}");
    }
    assert!(any_line_begins("x\nab c\n", "ab"));
    assert!(!any_line_begins("x ab\n", "ab"));
    assert!(any_line_holds("x\ny ab\n", "ab"));
    assert!(!any_line_holds("a\nb", "ab"));
}

#[test]
fn a_partial_prefix_is_no_clean_end() {
    assert_eq!(request_prefix(&vec![]), Ok(None));
    assert_eq!(request_prefix(&b"0".to_vec()), Err("partial request length prefix"));
    assert_eq!(request_prefix(&b"000".to_vec()), Err("partial request length prefix"));
    assert_eq!(request_prefix(&b"000c".to_vec()), Ok(Some(12)));
    assert_eq!(request_prefix(&b"00zz".to_vec()), Err("non-hex request length prefix"));
}
