use query_export::mapping::{
    accepts, candidate_at, document_value, from_sql, text_value, handle_type_error, map_type, try_get, wrong_type, Candidate,
    Cell, RawBytes, TryGetError, Xid, CANDIDATES,
};
use query_export::value::{JsonValue, MapError};

fn cell(type_oid: u32, declared_type: &str, raw: Option<&[u8]>) -> Cell {
    Cell {
        type_oid,
        declared_type: declared_type.to_string(),
        raw: raw.map(|bytes| bytes.to_vec()),
    }
}

fn is_decode_failure(r: &Result<JsonValue, MapError>) -> bool {
    matches!(r, Err(MapError::DecodeFailure { .. }))
}

#[test]
fn int8_max_is_a_decimal_string() {
    let raw = 9223372036854775807i64.to_be_bytes();
    assert_eq!(
        map_type(&cell(20, "int8", Some(&raw))),
        Ok(JsonValue::Text("9223372036854775807".to_string()))
    );
}

#[test]
fn int8_negative_and_zero_are_decimal_strings() {
    let raw = (-42i64).to_be_bytes();
    assert_eq!(
        map_type(&cell(20, "int8", Some(&raw))),
        Ok(JsonValue::Text("-42".to_string()))
    );
    let raw = 0i64.to_be_bytes();
    assert_eq!(
        map_type(&cell(20, "int8", Some(&raw))),
        Ok(JsonValue::Text("0".to_string()))
    );
    let raw = i64::MIN.to_be_bytes();
    assert_eq!(
        map_type(&cell(20, "int8", Some(&raw))),
        Ok(JsonValue::Text("-9223372036854775808".to_string()))
    );
}

#[test]
fn int4_is_a_number() {
    assert_eq!(
        map_type(&cell(23, "int4", Some(&[0, 0, 0, 1]))),
        Ok(JsonValue::Number(1))
    );
    assert_eq!(
        map_type(&cell(23, "int4", Some(&[0, 0, 1, 2]))),
        Ok(JsonValue::Number(258))
    );
    assert_eq!(
        map_type(&cell(23, "int4", Some(&[0xff, 0xff, 0xff, 0xff]))),
        Ok(JsonValue::Number(-1))
    );
    assert_eq!(
        map_type(&cell(23, "int4", Some(&[0x80, 0, 0, 0]))),
        Ok(JsonValue::Number(-2147483648))
    );
}

#[test]
fn int4_is_never_a_string() {
    let r = map_type(&cell(23, "int4", Some(&[0, 0, 0, 7])));
    assert!(!matches!(r, Ok(JsonValue::Text(_))));
    assert_eq!(r, Ok(JsonValue::Number(7)));
}

#[test]
fn oid_is_an_unsigned_number() {
    assert_eq!(
        map_type(&cell(26, "oid", Some(&[0xff, 0xff, 0xff, 0xff]))),
        Ok(JsonValue::Number(4294967295))
    );
    assert_eq!(
        map_type(&cell(26, "oid", Some(&[0, 0, 1, 0]))),
        Ok(JsonValue::Number(256))
    );
}

#[test]
fn int2_is_a_number() {
    assert_eq!(
        map_type(&cell(21, "int2", Some(&[1, 2]))),
        Ok(JsonValue::Number(258))
    );
    assert_eq!(
        map_type(&cell(21, "int2", Some(&[0xff, 0xfe]))),
        Ok(JsonValue::Number(-2))
    );
}

#[test]
fn char_is_a_number() {
    assert_eq!(
        map_type(&cell(18, "char", Some(&[65]))),
        Ok(JsonValue::Number(65))
    );
    assert_eq!(
        map_type(&cell(18, "char", Some(&[0x80]))),
        Ok(JsonValue::Number(-128))
    );
}

#[test]
fn bool_is_a_boolean() {
    assert_eq!(
        map_type(&cell(16, "bool", Some(&[1]))),
        Ok(JsonValue::Bool(true))
    );
    assert_eq!(
        map_type(&cell(16, "bool", Some(&[0]))),
        Ok(JsonValue::Bool(false))
    );
    assert_eq!(
        map_type(&cell(16, "bool", Some(&[2]))),
        Ok(JsonValue::Bool(true))
    );
}

#[test]
fn float8_keeps_its_bits() {
    let raw = 1.5f64.to_be_bytes();
    let r = map_type(&cell(701, "float8", Some(&raw)));
    assert_eq!(r, Ok(JsonValue::Float8Bits(1.5f64.to_bits() as i64)));
    let raw = (-2.25f64).to_be_bytes();
    match map_type(&cell(701, "float8", Some(&raw))) {
        Ok(JsonValue::Float8Bits(bits)) => assert_eq!(f64::from_bits(bits as u64), -2.25f64),
        other => panic!("{:?}", other),
    }
}

#[test]
fn float4_keeps_its_bits() {
    let raw = 0.5f32.to_be_bytes();
    let r = map_type(&cell(700, "float4", Some(&raw)));
    assert_eq!(r, Ok(JsonValue::Float4Bits(0.5f32.to_bits())));
    match r {
        Ok(JsonValue::Float4Bits(bits)) => assert_eq!(f32::from_bits(bits), 0.5f32),
        other => panic!("{:?}", other),
    }
}

#[test]
fn text_is_taken_verbatim() {
    for (oid, name) in [(25, "text"), (1043, "varchar"), (1042, "bpchar"), (19, "name"), (705, "unknown")] {
        assert_eq!(
            map_type(&cell(oid, name, Some("h\u{e9}llo \"w\"".as_bytes()))),
            Ok(JsonValue::Text("h\u{e9}llo \"w\"".to_string()))
        );
    }
    assert_eq!(
        map_type(&cell(25, "text", Some(b""))),
        Ok(JsonValue::Text(String::new()))
    );
}

#[test]
fn text_that_looks_like_a_number_stays_a_string() {
    assert_eq!(
        map_type(&cell(25, "text", Some(b"12"))),
        Ok(JsonValue::Text("12".to_string()))
    );
}

#[test]
fn text_with_invalid_utf8_is_a_decode_failure() {
    assert!(is_decode_failure(&map_type(&cell(25, "text", Some(&[0xff, 0xfe])))));
}

#[test]
fn extension_text_types_are_taken_by_name() {
    assert_eq!(
        map_type(&cell(90001, "citext", Some(b"Abc"))),
        Ok(JsonValue::Text("Abc".to_string()))
    );
    assert_eq!(
        map_type(&cell(90002, "ltree", Some(&[1, b'a', b'.', b'b']))),
        Ok(JsonValue::Text("a.b".to_string()))
    );
    assert!(is_decode_failure(&map_type(&cell(90002, "ltree", Some(&[2, b'a'])))));
}

#[test]
fn a_built_in_type_is_not_text_whatever_it_is_called() {
    assert_eq!(
        map_type(&cell(23, "citext", Some(&[0, 0, 0, 5]))),
        Ok(JsonValue::Number(5))
    );
    assert!(!accepts(Candidate::Text, 23, "citext"));
    assert!(accepts(Candidate::Text, 90001, "citext"));
    assert!(!accepts(Candidate::Text, 90001, "point3d"));
}

#[test]
fn timestamptz_is_an_rfc3339_string() {
    let raw = 0i64.to_be_bytes();
    assert_eq!(
        map_type(&cell(1184, "timestamptz", Some(&raw))),
        Ok(JsonValue::Text("2000-01-01T00:00:00Z".to_string()))
    );
    let raw = 1_500_000i64.to_be_bytes();
    assert_eq!(
        map_type(&cell(1184, "timestamptz", Some(&raw))),
        Ok(JsonValue::Text("2000-01-01T00:00:01.500Z".to_string()))
    );
}

#[test]
fn timestamp_is_a_string_without_zone() {
    let raw = 0i64.to_be_bytes();
    assert_eq!(
        map_type(&cell(1114, "timestamp", Some(&raw))),
        Ok(JsonValue::Text("2000-01-01T00:00:00".to_string()))
    );
    let raw = (86_400_000_000i64 + 1_000_000).to_be_bytes();
    assert_eq!(
        map_type(&cell(1114, "timestamp", Some(&raw))),
        Ok(JsonValue::Text("2000-01-02T00:00:01".to_string()))
    );
}

#[test]
fn timestamp_out_of_range_is_a_decode_failure() {
    let raw = i64::MAX.to_be_bytes();
    assert!(is_decode_failure(&map_type(&cell(1114, "timestamp", Some(&raw)))));
    assert!(is_decode_failure(&map_type(&cell(1184, "timestamptz", Some(&[0, 1])))));
}

#[test]
fn inet_is_the_written_address() {
    assert_eq!(
        map_type(&cell(869, "inet", Some(&[2, 32, 0, 4, 127, 0, 0, 1]))),
        Ok(JsonValue::Text("127.0.0.1".to_string()))
    );
    let mut v6 = vec![3u8, 128, 0, 16];
    v6.extend_from_slice(&[0, 0, 0, 0, 0, 0, 0, 0, 0, 0, 0, 0, 0, 0, 0, 1]);
    assert_eq!(
        map_type(&cell(869, "inet", Some(&v6))),
        Ok(JsonValue::Text("::1".to_string()))
    );
    assert!(is_decode_failure(&map_type(&cell(869, "inet", Some(&[9, 32, 0, 4, 1, 2, 3, 4])))));
}

#[test]
fn json_passes_through_as_a_document() {
    assert_eq!(
        map_type(&cell(114, "json", Some(b"{\"x\":1}"))),
        Ok(JsonValue::Document("{\"x\":1}".to_string()))
    );
    assert_eq!(
        map_type(&cell(114, "json", Some(b" { \"x\" : [1, true, null] } "))),
        Ok(JsonValue::Document("{\"x\":[1,true,null]}".to_string()))
    );
}

#[test]
fn jsonb_drops_its_version_byte() {
    let mut raw = vec![1u8];
    raw.extend_from_slice(b"{\"x\":1}");
    assert_eq!(
        map_type(&cell(3802, "jsonb", Some(&raw))),
        Ok(JsonValue::Document("{\"x\":1}".to_string()))
    );
    let mut raw = vec![2u8];
    raw.extend_from_slice(b"{\"x\":1}");
    assert!(is_decode_failure(&map_type(&cell(3802, "jsonb", Some(&raw)))));
}

#[test]
fn malformed_json_is_a_decode_failure() {
    assert!(is_decode_failure(&map_type(&cell(114, "json", Some(b"{\"x\":")))));
}

#[test]
fn xid_is_a_number_in_native_byte_order() {
    let raw = [1u8, 2, 3, 4];
    assert_eq!(
        map_type(&cell(28, "xid", Some(&raw))),
        Ok(JsonValue::Number(u32::from_ne_bytes(raw) as i64))
    );
    assert_eq!(Xid::from_sql(&raw), Ok(Xid(u32::from_ne_bytes(raw))));
    assert!(Xid::from_sql(&[1, 2, 3]).is_err());
    assert!(is_decode_failure(&map_type(&cell(28, "xid", Some(&[1, 2, 3, 4, 5])))));
    assert!(Xid::accepts(28));
    assert!(!Xid::accepts(23));
}

#[test]
fn wrong_length_is_a_decode_failure() {
    assert!(is_decode_failure(&map_type(&cell(23, "int4", Some(&[0, 0, 1])))));
    assert!(is_decode_failure(&map_type(&cell(23, "int4", Some(&[0, 0, 0, 0, 1])))));
    assert!(is_decode_failure(&map_type(&cell(20, "int8", Some(&[0, 0, 0, 1])))));
    assert!(is_decode_failure(&map_type(&cell(21, "int2", Some(&[1])))));
    assert!(is_decode_failure(&map_type(&cell(18, "char", Some(&[])))));
    assert!(is_decode_failure(&map_type(&cell(16, "bool", Some(&[1, 1])))));
    assert!(is_decode_failure(&map_type(&cell(26, "oid", Some(&[1])))));
    assert!(is_decode_failure(&map_type(&cell(700, "float4", Some(&[1])))));
    assert!(is_decode_failure(&map_type(&cell(701, "float8", Some(&[1])))));
}

#[test]
fn null_is_null_for_every_type() {
    let types: [(u32, &str); 21] = [
        (25, "text"),
        (1043, "varchar"),
        (1042, "bpchar"),
        (19, "name"),
        (705, "unknown"),
        (20, "int8"),
        (23, "int4"),
        (26, "oid"),
        (21, "int2"),
        (18, "char"),
        (16, "bool"),
        (701, "float8"),
        (700, "float4"),
        (1184, "timestamptz"),
        (1114, "timestamp"),
        (869, "inet"),
        (114, "json"),
        (3802, "jsonb"),
        (28, "xid"),
        (1007, "_int4"),
        (90003, "point3d"),
    ];
    for (oid, name) in types {
        assert_eq!(map_type(&cell(oid, name, None)), Ok(JsonValue::Null));
    }
}

#[test]
fn unsupported_type_with_a_value_is_unmappable() {
    let raw = [0u8, 0, 0, 1, 0, 0, 0, 0];
    assert_eq!(
        map_type(&cell(1007, "_int4", Some(&raw))),
        Err(MapError::UnmappableType {
            declared_type: "_int4".to_string(),
            raw: raw.to_vec(),
        })
    );
    assert_eq!(
        map_type(&cell(90003, "point3d", Some(&[9]))),
        Err(MapError::UnmappableType {
            declared_type: "point3d".to_string(),
            raw: vec![9],
        })
    );
    assert_eq!(map_type(&cell(1007, "_int4", None)), Ok(JsonValue::Null));
}

#[test]
fn the_chain_has_its_order() {
    assert_eq!(CANDIDATES, 14);
    let expected = [
        Candidate::Text,
        Candidate::Int8,
        Candidate::Int4,
        Candidate::Oid,
        Candidate::Int2,
        Candidate::Char,
        Candidate::Bool,
        Candidate::Float8,
        Candidate::Float4,
        Candidate::TimestampTz,
        Candidate::Timestamp,
        Candidate::Inet,
        Candidate::Json,
        Candidate::Xid,
    ];
    for (i, c) in expected.iter().enumerate() {
        assert_eq!(candidate_at(i), *c);
    }
}

#[test]
fn at_most_one_candidate_takes_a_type() {
    let oids: [u32; 22] = [
        16, 17, 18, 19, 20, 21, 23, 25, 26, 28, 114, 700, 701, 705, 869, 1042, 1043, 1114, 1184,
        3802, 1007, 90001,
    ];
    for oid in oids {
        for name in ["text", "citext", "other"] {
            let mut taking = 0;
            for i in 0..CANDIDATES {
                if accepts(candidate_at(i), oid, name) {
                    taking += 1;
                }
            }
            assert!(taking <= 1);
        }
    }
}

#[test]
fn an_attempt_with_the_wrong_candidate_is_a_mismatch() {
    let c = cell(23, "int4", Some(&[0, 0, 0, 1]));
    assert_eq!(try_get(Candidate::Text, &c), Err(TryGetError::WrongType));
    assert_eq!(try_get(Candidate::Int8, &c), Err(TryGetError::WrongType));
    assert_eq!(try_get(Candidate::Int4, &c), Ok(Some(JsonValue::Number(1))));
    assert_eq!(try_get(Candidate::Int4, &cell(23, "int4", None)), Ok(None));
    assert!(matches!(
        try_get(Candidate::Int4, &cell(23, "int4", Some(&[1]))),
        Err(TryGetError::Decode { .. })
    ));
}

#[test]
fn only_a_mismatch_lets_the_chain_go_on() {
    assert!(wrong_type(&TryGetError::WrongType));
    assert!(!wrong_type(&TryGetError::Decode { message: "bad".to_string() }));
    assert_eq!(handle_type_error(TryGetError::WrongType), Ok(()));
    assert_eq!(
        handle_type_error(TryGetError::Decode { message: "bad".to_string() }),
        Err(MapError::DecodeFailure { message: "bad".to_string() })
    );
}

#[test]
fn decoding_by_candidate() {
    assert_eq!(
        from_sql(Candidate::Int2, 21, "int2", &[0, 3]),
        Ok(JsonValue::Number(3))
    );
    assert_eq!(
        from_sql(Candidate::Json, 114, "json", b"[1, 2]"),
        Ok(JsonValue::Document("[1,2]".to_string()))
    );
    assert!(from_sql(Candidate::Bool, 16, "bool", &[]).is_err());
}

#[test]
fn the_catch_all_takes_everything() {
    assert!(RawBytes::accepts(23));
    assert!(RawBytes::accepts(90003));
    assert_eq!(
        RawBytes::from_sql("point3d", &[1, 2]),
        Ok(RawBytes { declared_type: "point3d".to_string(), inner: vec![1, 2] })
    );
    assert_eq!(RawBytes::try_get(&cell(90003, "point3d", None)), Ok(None));
    assert_eq!(
        RawBytes::try_get(&cell(90003, "point3d", Some(&[7]))),
        Ok(Some(RawBytes { declared_type: "point3d".to_string(), inner: vec![7] }))
    );
}

#[test]
fn a_read_string_becomes_a_value() {
    assert_eq!(text_value(Ok("a".to_string())), Ok(JsonValue::Text("a".to_string())));
    assert_eq!(text_value(Err("bad".to_string())), Err("bad".to_string()));
    assert_eq!(
        document_value(Ok("{}".to_string())),
        Ok(JsonValue::Document("{}".to_string()))
    );
    assert_eq!(document_value(Err("bad".to_string())), Err("bad".to_string()));
    assert_eq!(
        Xid::from_sql(&[1, 2]),
        Err("could not convert slice to array".to_string())
    );
}
