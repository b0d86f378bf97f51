use touchhle::frameworks::core_foundation::cf_number::{
    cf_number_value, kCFNumberCharType, kCFNumberFloatType, kCFNumberSInt32Type,
    kCFNumberShortType, CFNumberValue,
};
use touchhle::frameworks::core_foundation::cf_string::{
    encode_chars, find_result_range, ns_range_from_cf, pascal_length_byte, pascal_string_bytes,
    ByteEncoding, CFStringConvertEncodingToNSStringEncoding,
    CFStringConvertNSStringEncodingToEncoding, CFStringGetBytes, kCFStringEncodingASCII,
    kCFStringEncodingISOLatin1, kCFStringEncodingMacRoman, kCFStringEncodingUTF16BE,
    kCFStringEncodingUTF16LE, kCFStringEncodingUTF8, kCFStringEncodingUnicode,
    NSASCIIStringEncoding, NSISOLatin1StringEncoding, NSMacOSRomanStringEncoding,
    NSUTF16BigEndianStringEncoding, NSUTF16LittleEndianStringEncoding, NSUTF16StringEncoding,
    NSUTF8StringEncoding,
};
use touchhle::frameworks::core_foundation::{kCFNotFound, CFRange};
use touchhle::frameworks::foundation::ns_keyed_unarchiver::{
    init_for_reading_with_data, read_plist, unarchiver_from, ArchiveValue, ClassRef,
    NSKeyedUnarchiverHostObject, UnarchiveStep,
};
use touchhle::frameworks::foundation::ns_object::key_value_names;
use touchhle::frameworks::foundation::ns_scanner::NSScannerHostObject;
use touchhle::frameworks::foundation::ns_url_request::HeaderFields;
use touchhle::frameworks::foundation::{NSNotFound, NSRange};
use touchhle::mem::Mem;

#[test]
fn encodings_convert_both_ways() {
    let pairs = [
        (kCFStringEncodingMacRoman, NSMacOSRomanStringEncoding),
        (kCFStringEncodingASCII, NSASCIIStringEncoding),
        (kCFStringEncodingUTF8, NSUTF8StringEncoding),
        (kCFStringEncodingUnicode, NSUTF16StringEncoding),
        (kCFStringEncodingUTF16BE, NSUTF16BigEndianStringEncoding),
        (kCFStringEncodingUTF16LE, NSUTF16LittleEndianStringEncoding),
        (kCFStringEncodingISOLatin1, NSISOLatin1StringEncoding),
    ];
    for (cf, ns) in pairs {
        assert_eq!(CFStringConvertEncodingToNSStringEncoding(cf), ns);
        assert_eq!(CFStringConvertNSStringEncodingToEncoding(ns), cf);
    }
    assert_eq!(CFStringConvertEncodingToNSStringEncoding(0x0800_0100), 4);
}

#[test]
fn character_encodings_match_std() {
    let text: Vec<char> = "aé€😀".chars().collect();
    let s: String = text.iter().collect();
    assert_eq!(encode_chars(&text, ByteEncoding::Utf8), s.as_bytes().to_vec());
    let le: Vec<u8> = s.encode_utf16().flat_map(|u| u.to_le_bytes()).collect();
    let be: Vec<u8> = s.encode_utf16().flat_map(|u| u.to_be_bytes()).collect();
    assert_eq!(encode_chars(&text, ByteEncoding::Utf16 { big_endian: false }), le);
    assert_eq!(encode_chars(&text, ByteEncoding::Utf16 { big_endian: true }), be);
    assert_eq!(encode_chars(&text, ByteEncoding::Latin1), vec![b'a', 0xe9]);
}

fn chars(s: &str) -> Vec<char> {
    s.chars().collect()
}

#[test]
fn get_bytes_without_buffer_reports_length() {
    let mut mem = Mem::new(64, 0);
    let s = chars("héllo");
    let r = CFStringGetBytes(
        &mut mem,
        Some(&s),
        CFRange { location: 0, length: 5 },
        kCFStringEncodingUTF8,
        0,
        false,
        0,
        0,
        16,
    );
    assert_eq!(r, 6);
    assert_eq!(mem.read_u32(16), 6);
}

#[test]
fn get_bytes_copies_what_fits() {
    let mut mem = Mem::new(64, 0);
    let s = chars("hello world");
    let r = CFStringGetBytes(
        &mut mem,
        Some(&s),
        CFRange { location: 6, length: 5 },
        kCFStringEncodingASCII,
        0,
        false,
        8,
        3,
        32,
    );
    assert_eq!(r, 3);
    assert_eq!(mem.bytes_at(8, 4), b"wor\0".to_vec());
    assert_eq!(mem.read_u32(32), 3);
}

#[test]
fn get_bytes_utf16_big_endian() {
    let mut mem = Mem::new(64, 0);
    let s = chars("ab");
    let r = CFStringGetBytes(
        &mut mem,
        Some(&s),
        CFRange { location: 0, length: -1 },
        kCFStringEncodingUTF16BE,
        0,
        false,
        0,
        0,
        0,
    );
    assert_eq!(r, 4);
}

#[test]
fn get_bytes_edge_cases() {
    let mut mem = Mem::new(64, 0);
    assert_eq!(
        CFStringGetBytes(&mut mem, None, CFRange { location: 0, length: 1 }, kCFStringEncodingUTF8, 0, false, 0, 0, 0),
        0
    );
    let s = chars("abc");
    // Mac Roman is not produced: nothing is written.
    assert_eq!(
        CFStringGetBytes(&mut mem, Some(&s), CFRange { location: 0, length: 3 }, kCFStringEncodingMacRoman, 0, false, 8, 8, 16),
        0
    );
    assert_eq!(mem.read_u32(16), 0);
    // A location past the end selects nothing.
    assert_eq!(
        CFStringGetBytes(&mut mem, Some(&s), CFRange { location: 10, length: 3 }, kCFStringEncodingUTF8, 0, false, 0, 0, 0),
        0
    );
}

#[test]
fn find_ranges() {
    let r = find_result_range(NSRange { location: NSNotFound as u32, length: 0 });
    assert_eq!(r, CFRange { location: kCFNotFound, length: 0 });
    let r = find_result_range(NSRange { location: 4, length: 2 });
    assert_eq!(r, CFRange { location: 4, length: 2 });
    assert_eq!(ns_range_from_cf(CFRange { location: 1, length: 9 }), NSRange { location: 1, length: 9 });
}

#[test]
fn pascal_strings() {
    assert_eq!(pascal_length_byte(5, 6), 5);
    let mut mem = Mem::new(32, 0);
    mem.write_bytes(4, &vec![3, b'a', b'b', b'c', b'd']);
    assert_eq!(pascal_string_bytes(&mem, 4), b"abc".to_vec());
}

fn key(s: &str) -> Vec<u8> {
    s.as_bytes().to_vec()
}

/// `$top` = { root: UID 1 }; `$objects` = [ "$null", { $class: UID 2,
/// NS.objects: [UID 3, UID 4], NS.keys: [UID 4], name: "x", count: 7,
/// flag: true, NS.time: 1.5, NS.data: <01 02> }, { $classname:
/// "NSArray" }, "hello", 42 ].
fn archive() -> NSKeyedUnarchiverHostObject {
    let object = ArchiveValue::Dictionary(vec![
        (key("$class"), ArchiveValue::Uid(2)),
        (key("NS.objects"), ArchiveValue::Array(vec![ArchiveValue::Uid(3), ArchiveValue::Boolean(false), ArchiveValue::Uid(4)])),
        (key("NS.keys"), ArchiveValue::Array(vec![ArchiveValue::Uid(4)])),
        (key("name"), ArchiveValue::String(key("x"))),
        (key("count"), ArchiveValue::Integer(7)),
        (key("flag"), ArchiveValue::Boolean(true)),
        (key("NS.time"), ArchiveValue::Real(1.5f64.to_bits())),
        (key("NS.data"), ArchiveValue::Data(vec![1, 2])),
    ]);
    let class = ArchiveValue::Dictionary(vec![(key("$classname"), ArchiveValue::String(key("NSArray")))]);
    let objects = vec![
        ArchiveValue::String(key("$null")),
        object,
        class,
        ArchiveValue::String(key("hello")),
        ArchiveValue::Integer(42),
    ];
    NSKeyedUnarchiverHostObject {
        plist: vec![
            (key("$top"), ArchiveValue::Dictionary(vec![(key("root"), ArchiveValue::Uid(1))])),
            (key("$objects"), ArchiveValue::Array(objects)),
        ],
        current_key: None,
        already_unarchived: vec![None; 5],
        delegate: 0,
        temporary_buffers: vec![],
    }
}

#[test]
fn decoding_reads_the_current_object() {
    let mut u = archive();
    assert_eq!(u.decode_object_for_key(b"root"), Some(1));
    assert!(!u.decode_bool_for_key(b"flag"));
    let previous = u.enter(1);
    assert_eq!(previous, None);
    assert!(u.decode_bool_for_key(b"flag"));
    assert_eq!(u.decode_int_for_key(b"count"), 7);
    assert_eq!(u.decode_int_for_key(b"name"), 0);
    assert_eq!(u.decode_double_bits_for_key(b"NS.time"), 1.5f64.to_bits());
    assert_eq!(u.decode_current_date(), Some(1.5f64.to_bits()));
    assert_eq!(u.decode_current_array(), vec![3, 4]);
    assert_eq!(u.decode_current_dict(), vec![(4, 3)]);
    let mut mem = Mem::new(64, 8);
    let (ptr, len) = u.decode_current_data(&mut mem).unwrap();
    assert_eq!((ptr, len), (8, 2));
    assert_eq!(mem.bytes_at(8, 2), vec![1, 2]);
    u.leave(previous);
    assert_eq!(u.current_key, None);
    assert!(u.decode_current_array().is_empty());
}

#[test]
fn unarchiving_steps() {
    let mut u = archive();
    match u.unarchive_step(1) {
        UnarchiveStep::Instance(ClassRef::Named { uid, name }) => {
            assert_eq!(uid, 2);
            assert_eq!(name, key("NSArray"));
        }
        _ => panic!("expected a class to look up"),
    }
    u.record_object(2, 0x500);
    assert!(matches!(u.unarchive_step(1), UnarchiveStep::Instance(ClassRef::Known(0x500))));
    match u.unarchive_step(3) {
        UnarchiveStep::String(s) => assert_eq!(s, key("hello")),
        _ => panic!("expected a string"),
    }
    assert!(matches!(u.unarchive_step(4), UnarchiveStep::SignedInteger(42)));
    u.record_object(4, 0x600);
    assert!(matches!(u.unarchive_step(4), UnarchiveStep::Existing(0x600)));
}

#[test]
fn number_values_by_type() {
    let mut mem = Mem::new(32, 0);
    mem.write_u32(0, (-2i32) as u32);
    mem.write_u32(4, 1.5f32.to_bits());
    mem.write_u8(8, 0xfe);
    mem.write_u8(9, 0xff);
    assert_eq!(cf_number_value(&mem, kCFNumberSInt32Type, 0), CFNumberValue::SInt32(-2));
    assert_eq!(cf_number_value(&mem, kCFNumberFloatType, 4), CFNumberValue::FloatBits(1.5f32.to_bits()));
    assert_eq!(cf_number_value(&mem, kCFNumberShortType, 8), CFNumberValue::Short(-2));
    assert_eq!(cf_number_value(&mem, kCFNumberCharType, 8), CFNumberValue::Char(-2));
}

fn utf16(s: &str) -> Vec<u16> {
    s.encode_utf16().collect()
}

fn whitespace_flags(s: &[u16]) -> Vec<bool> {
    s.iter().map(|&c| c == 0x20 || c == 0x09 || c == 0x0a).collect()
}

#[test]
fn scanner_reads_decimal_ints() {
    let text = utf16("  -42abc");
    let skip = whitespace_flags(&text);
    let mut sc = NSScannerHostObject::new(text, 0x77);
    assert_eq!(sc.scan_int(&skip), Some(-42));
    assert_eq!(sc.pos, 5);
    assert_eq!(sc.scan_int(&skip), None);
    assert_eq!(sc.pos, 5);
    assert!(!sc.is_at_end(&skip));

    for (s, value, pos) in [
        ("+17", 17, 3),
        ("+-3", 0, 3),
        ("-", 0, 1),
        ("2147483647", 2147483647, 10),
        ("2147483648", 0, 10),
        ("-2147483648", i32::MIN, 11),
        ("12-3 4", 0, 4),
    ] {
        let text = utf16(s);
        let skip = whitespace_flags(&text);
        let mut sc = NSScannerHostObject::new(text, 0);
        assert_eq!(sc.scan_int(&skip), Some(value), "{}", s);
        assert_eq!(sc.pos, pos, "{}", s);
    }
}

#[test]
fn scanner_reads_hex_ints() {
    for (s, value, pos) in [
        ("0x1F", Some(31u32), 4usize),
        (" 0XAbC;", Some(0xabc), 6),
        ("ff", Some(255), 2),
        ("ffffffff", Some(u32::MAX), 8),
        ("123456789", Some(0), 9),
        ("0xg", None, 0),
        ("  zz", None, 2),
    ] {
        let text = utf16(s);
        let skip = whitespace_flags(&text);
        let mut sc = NSScannerHostObject::new(text, 0);
        assert_eq!(sc.scan_hex_int(&skip), value, "{}", s);
        assert_eq!(sc.pos, pos, "{}", s);
    }
}

#[test]
fn scanner_reads_up_to_a_set() {
    let text = utf16(" abc,def");
    let skip = whitespace_flags(&text);
    let commas: Vec<bool> = text.iter().map(|&c| c == 0x2c).collect();
    let mut sc = NSScannerHostObject::new(text, 0);
    assert_eq!(sc.scan_up_to_characters_from_set(&skip, &commas), Some(utf16("abc")));
    assert_eq!(sc.pos, 4);
    assert_eq!(sc.scan_up_to_characters_from_set(&skip, &commas), None);
    sc.pos = 5;
    assert_eq!(sc.scan_up_to_characters_from_set(&skip, &commas), Some(utf16("def")));
    assert!(sc.is_at_end(&skip));
}

#[test]
fn request_header_fields() {
    let mut h = HeaderFields::new();
    assert_eq!(h.value_for(&utf16("Accept")), None);
    h.add_value(utf16("Accept"), utf16("text/html"));
    assert_eq!(h.value_for(&utf16("Accept")), Some(utf16("text/html")));
    h.add_value(utf16("Accept"), utf16("*/*"));
    assert_eq!(h.value_for(&utf16("Accept")), Some(utf16("text/html, */*")));
    h.set_value(utf16("Host"), utf16("example.com"));
    h.set_value(utf16("Accept"), utf16("image/png"));
    assert_eq!(h.value_for(&utf16("Accept")), Some(utf16("image/png")));
    assert_eq!(h.value_for(&utf16("Host")), Some(utf16("example.com")));
    assert_eq!(h.value_for(&utf16("accept")), None);
}

#[test]
fn key_value_coding_names() {
    let names = key_value_names(b"score");
    assert_eq!(names.setters, vec![b"setScore:".to_vec(), b"_setScore:".to_vec()]);
    assert_eq!(
        names.ivars,
        vec![b"_score".to_vec(), b"_isScore".to_vec(), b"score".to_vec(), b"isScore".to_vec()]
    );
    let names = key_value_names(b"URL");
    assert_eq!(names.setters[0], b"setURL:".to_vec());
    assert_eq!(names.ivars[1], b"_isURL".to_vec());
    let names = key_value_names(b"x");
    assert_eq!(names.ivars[3], b"isX".to_vec());
}

const ARCHIVE_XML: &str = r#"<?xml version="1.0" encoding="UTF-8"?>
<!DOCTYPE plist PUBLIC "-//Apple//DTD PLIST 1.0//EN" "http://www.apple.com/DTDs/PropertyList-1.0.dtd">
<plist version="1.0">
<dict>
    <key>$archiver</key>
    <string>NSKeyedArchiver</string>
    <key>$objects</key>
    <array>
        <string>$null</string>
        <dict>
            <key>count</key>
            <integer>-3</integer>
            <key>$class</key>
            <dict><key>CF$UID</key><integer>2</integer></dict>
        </dict>
        <true/>
    </array>
    <key>$top</key>
    <dict>
        <key>root</key>
        <dict><key>CF$UID</key><integer>1</integer></dict>
    </dict>
</dict>
</plist>"#;

#[test]
fn archive_is_read_from_bytes() {
    let u = init_for_reading_with_data(ARCHIVE_XML.as_bytes());
    assert_eq!(u.already_unarchived, vec![None, None, None]);
    assert_eq!(u.plist.len(), 3);
    assert_eq!(u.plist[1].0, b"$objects".to_vec());
    match &u.plist[1].1 {
        ArchiveValue::Array(objs) => {
            assert_eq!(objs.len(), 3);
            assert!(matches!(&objs[0], ArchiveValue::String(s) if s == b"$null"));
            assert!(matches!(&objs[2], ArchiveValue::Boolean(true)));
            match &objs[1] {
                ArchiveValue::Dictionary(d) => {
                    assert!(matches!(d[0].1, ArchiveValue::Integer(-3)));
                }
                _ => panic!("expected a dictionary"),
            }
        }
        _ => panic!("expected an array"),
    }
    assert!(u.current_key.is_none());
}

#[test]
fn unreadable_archive_leaves_unarchiver_empty() {
    assert!(read_plist(b"not a property list").is_none());
    let u = init_for_reading_with_data(b"not a property list");
    assert!(u.plist.is_empty());
    assert!(u.already_unarchived.is_empty());
    // A property list that is not a dictionary is no archive either.
    let u = unarchiver_from(Some(ArchiveValue::Array(vec![])));
    assert!(u.plist.is_empty());
    assert!(u.already_unarchived.is_empty());
}
