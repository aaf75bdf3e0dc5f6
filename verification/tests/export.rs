use erased_export::bake::CrateEnv;
use erased_export::error::DataErrorKind;
use erased_export::hash::Fnv1aHasher;
use erased_export::json::JsonSink;
use erased_export::payload::{DataPayload, ExportMarker, TypeToken};
use erased_export::value::{Field, Record, Scalar};

fn hello_record(message: &str) -> Record {
    Record {
        name: String::from("HelloWorld"),
        module: String::from("hello_world"),
        fields: vec![Field {
            name: String::from("message"),
            value: Scalar::Str(String::from(message)),
        }],
    }
}

fn hello_payload(message: &str) -> DataPayload {
    DataPayload::from_owned(TypeToken { id: 1 }, hello_record(message))
}

fn json_of_payload(p: &DataPayload) -> String {
    let mut sink = JsonSink::new();
    p.serialize_yoke(&mut sink).expect("serialization should succeed");
    sink.finish()
}

fn json_of_box(b: &erased_export::payload::ExportBox) -> String {
    let mut sink = JsonSink::new();
    b.serialize(&mut sink).expect("serialization should succeed");
    sink.finish()
}

fn fnv1a_of(bytes: &[u8]) -> u64 {
    let mut h: u64 = 0xcbf29ce484222325;
    for b in bytes {
        h = (h ^ (*b as u64)).wrapping_mul(0x100000001b3);
    }
    h
}

#[test]
fn test_compare_with_dyn() {
    let payload1 = hello_payload("abc");
    let payload2 = hello_payload("abc");
    let payload3 = hello_payload("def");

    assert!(payload1.eq_dyn(&payload2));
    assert!(payload2.eq_dyn(&payload1));

    assert!(!payload1.eq_dyn(&payload3));
    assert!(!payload3.eq_dyn(&payload1));
}

#[test]
fn test_export_marker_partial_eq() {
    let payload1 = ExportMarker::upcast(hello_payload("abc"));
    let payload2 = ExportMarker::upcast(hello_payload("abc"));
    let payload3 = ExportMarker::upcast(hello_payload("def"));

    assert!(payload1 == payload2);
    assert!(payload2 == payload1);
    assert!(payload1 != payload3);
    assert!(payload3 != payload1);
}

#[test]
fn test_equality_preserved_and_reflected() {
    let a = hello_payload("same");
    let b = hello_payload("same");
    let c = hello_payload("other");
    let ea = ExportMarker::upcast(hello_payload("same"));
    let eb = ExportMarker::upcast(hello_payload("same"));
    let ec = ExportMarker::upcast(hello_payload("other"));

    assert!(a.eq_dyn(&b));
    assert!(ea == eb);
    assert!(!a.eq_dyn(&c));
    assert!(ea != ec);
}

#[test]
fn test_serialize_json_hello() {
    let export = ExportMarker::upcast(hello_payload("Hello World"));
    assert_eq!(json_of_box(&export), "{\"message\":\"Hello World\"}");

    let changed = ExportMarker::upcast(hello_payload("Hi"));
    assert!(export != changed);
    assert_eq!(json_of_box(&changed), "{\"message\":\"Hi\"}");
    assert!(json_of_box(&export) != json_of_box(&changed));
}

#[test]
fn test_serialize_transparent() {
    let payload = hello_payload("Hello World");
    let direct = json_of_payload(&payload);
    let export = ExportMarker::upcast(hello_payload("Hello World"));
    let erased = json_of_box(&export);
    assert_eq!(direct, erased);
}

#[test]
fn test_clone_three_identical() {
    let export = ExportMarker::upcast(hello_payload("Hello World"));
    let second = export.clone();
    let third = export.clone();

    assert!(export == second);
    assert!(second == third);
    assert!(export == third);

    let s1 = json_of_box(&export);
    let s2 = json_of_box(&second);
    let s3 = json_of_box(&third);
    assert_eq!(s1, s2);
    assert_eq!(s2, s3);
}

#[test]
fn test_postcard_size_matches_postcard() {
    let export = ExportMarker::upcast(hello_payload("Hello World"));
    let expected = postcard::to_allocvec(&("Hello World",)).unwrap();
    assert_eq!(export.postcard_size(), expected.len());
}

#[test]
fn test_postcard_size_mixed_fields() {
    let record = Record {
        name: String::from("Mixed"),
        module: String::from("demo"),
        fields: vec![
            Field { name: String::from("message"), value: Scalar::Str(String::from("abc")) },
            Field { name: String::from("count"), value: Scalar::U64(300) },
            Field { name: String::from("flag"), value: Scalar::Bool(true) },
        ],
    };
    let export = ExportMarker::upcast(DataPayload::from_owned(TypeToken { id: 7 }, record));
    let expected = postcard::to_allocvec(&("abc", 300u64, true)).unwrap();
    assert_eq!(export.postcard_size(), expected.len());
}

#[test]
fn test_postcard_size_varint_boundary() {
    for (value, len) in [(0u64, 1usize), (127, 1), (128, 2), (16383, 2), (16384, 3)] {
        let record = Record {
            name: String::from("One"),
            module: String::from("demo"),
            fields: vec![Field { name: String::from("n"), value: Scalar::U64(value) }],
        };
        let export = ExportMarker::upcast(DataPayload::from_owned(TypeToken { id: 2 }, record));
        assert_eq!(export.postcard_size(), len);
        let expected = postcard::to_allocvec(&value).unwrap();
        assert_eq!(export.postcard_size(), expected.len());
    }
}

#[test]
fn test_hash_equal_payloads_hash_equal() {
    let a = ExportMarker::upcast(hello_payload("Hello World"));
    let b = ExportMarker::upcast(hello_payload("Hello World"));
    assert!(a == b);

    let mut ha = Fnv1aHasher::new();
    a.hash(&mut ha);
    let mut hb = Fnv1aHasher::new();
    b.hash(&mut hb);
    assert_eq!(ha.finish(), hb.finish());
}

#[test]
fn test_hash_matches_wire_bytes() {
    let export = ExportMarker::upcast(hello_payload("Hello World"));
    let wire = postcard::to_allocvec(&("Hello World",)).unwrap();
    let mut h = Fnv1aHasher::new();
    export.hash(&mut h);
    assert_eq!(h.finish(), fnv1a_of(&wire));
}

#[test]
fn test_hash_matches_wire_bytes_mixed() {
    let record = Record {
        name: String::from("Mixed"),
        module: String::from("demo"),
        fields: vec![
            Field { name: String::from("message"), value: Scalar::Str(String::from("abc")) },
            Field { name: String::from("count"), value: Scalar::U64(300) },
            Field { name: String::from("flag"), value: Scalar::Bool(false) },
        ],
    };
    let export = ExportMarker::upcast(DataPayload::from_owned(TypeToken { id: 7 }, record));
    let wire = postcard::to_allocvec(&("abc", 300u64, false)).unwrap();
    let mut h = Fnv1aHasher::new();
    export.hash(&mut h);
    assert_eq!(h.finish(), fnv1a_of(&wire));
}

#[test]
fn test_empty_string_field() {
    let record = Record {
        name: String::from("One"),
        module: String::from("demo"),
        fields: vec![Field { name: String::from("message"), value: Scalar::Str(String::new()) }],
    };
    let export = ExportMarker::upcast(DataPayload::from_owned(TypeToken { id: 8 }, record));
    let expected = postcard::to_allocvec(&("",)).unwrap();
    assert_eq!(export.postcard_size(), expected.len());
    assert_eq!(json_of_box(&export), "{\"message\":\"\"}");
}

#[test]
fn test_json_u64_max() {
    let record = Record {
        name: String::from("One"),
        module: String::from("demo"),
        fields: vec![Field { name: String::from("n"), value: Scalar::U64(u64::MAX) }],
    };
    let export = ExportMarker::upcast(DataPayload::from_owned(TypeToken { id: 9 }, record));
    assert_eq!(json_of_box(&export), "{\"n\":18446744073709551615}");
    let expected = postcard::to_allocvec(&u64::MAX).unwrap();
    assert_eq!(export.postcard_size(), expected.len());
}

#[test]
fn test_fnv_empty_is_offset_basis() {
    let h = Fnv1aHasher::new();
    assert_eq!(h.finish(), 0xcbf29ce484222325);
}

#[test]
fn test_cross_type_never_equal() {
    let a = DataPayload::from_owned(TypeToken { id: 1 }, hello_record("abc"));
    let b = DataPayload::from_owned(TypeToken { id: 2 }, hello_record("abc"));

    assert!(!a.eq_dyn(&b));
    assert!(!b.eq_dyn(&a));

    let fault = a.try_eq(&b).unwrap_err();
    assert_eq!(fault.left, TypeToken { id: 1 });
    assert_eq!(fault.right, TypeToken { id: 2 });

    let ea = ExportMarker::upcast(a);
    let eb = ExportMarker::upcast(b);
    assert!(ea != eb);
    assert!(ea.try_eq(&eb).is_err());
}

#[test]
fn test_serialize_fault_is_reported() {
    let export = ExportMarker::upcast(hello_payload("he said \"no\""));
    let mut sink = JsonSink::new();
    let err = export.serialize(&mut sink).unwrap_err();
    assert_eq!(err.kind, DataErrorKind::Serialization);
    assert!(err.context.contains("escaping"));
}

#[test]
fn test_tokenize() {
    let export = ExportMarker::upcast(hello_payload("Hello World"));
    let mut env = CrateEnv::new();
    let tokens = export.tokenize(&mut env);
    assert_eq!(
        tokens,
        "HelloWorld { message: alloc::borrow::Cow::Borrowed(\"Hello World\"), }"
    );
    assert_eq!(env.len(), 2);
    assert!(env.contains(&String::from("hello_world")));
    assert!(env.contains(&String::from("alloc")));
}

#[test]
fn test_tokenize_without_strings() {
    let record = Record {
        name: String::from("Counters"),
        module: String::from("demo"),
        fields: vec![
            Field { name: String::from("count"), value: Scalar::U64(12345) },
            Field { name: String::from("flag"), value: Scalar::Bool(false) },
        ],
    };
    let export = ExportMarker::upcast(DataPayload::from_owned(TypeToken { id: 3 }, record));
    let mut env = CrateEnv::new();
    let tokens = export.tokenize(&mut env);
    assert_eq!(tokens, "Counters { count: 12345u64, flag: false, }");
    assert_eq!(env.len(), 1);
    assert!(env.contains(&String::from("demo")));
    assert!(!env.contains(&String::from("alloc")));
}

#[test]
fn test_tokenize_dedups_modules() {
    let record = Record {
        name: String::from("Pair"),
        module: String::from("demo"),
        fields: vec![
            Field { name: String::from("first"), value: Scalar::Str(String::from("a")) },
            Field { name: String::from("second"), value: Scalar::Str(String::from("b")) },
        ],
    };
    let export = ExportMarker::upcast(DataPayload::from_owned(TypeToken { id: 6 }, record));
    let mut env = CrateEnv::new();
    let tokens = export.tokenize(&mut env);
    assert_eq!(
        tokens,
        "Pair { first: alloc::borrow::Cow::Borrowed(\"a\"), second: alloc::borrow::Cow::Borrowed(\"b\"), }"
    );
    assert_eq!(env.len(), 2);
}

#[test]
fn test_tokenize_escapes_strings() {
    let export = ExportMarker::upcast(hello_payload("he said \"no\""));
    let mut env = CrateEnv::new();
    let tokens = export.tokenize(&mut env);
    assert_eq!(
        tokens,
        "HelloWorld { message: alloc::borrow::Cow::Borrowed(\"he said \\\"no\\\"\"), }"
    );
}

#[test]
fn test_json_u64_and_bool() {
    let record = Record {
        name: String::from("Counters"),
        module: String::from("demo"),
        fields: vec![
            Field { name: String::from("count"), value: Scalar::U64(12345) },
            Field { name: String::from("flag"), value: Scalar::Bool(true) },
        ],
    };
    let export = ExportMarker::upcast(DataPayload::from_owned(TypeToken { id: 3 }, record));
    assert_eq!(json_of_box(&export), "{\"count\":12345,\"flag\":true}");
}

#[test]
fn test_empty_record() {
    let record = Record { name: String::from("Unit"), module: String::from("demo"), fields: vec![] };
    let a = ExportMarker::upcast(DataPayload::from_owned(TypeToken { id: 4 }, record));
    let record2 = Record { name: String::from("Unit"), module: String::from("demo"), fields: vec![] };
    let b = ExportMarker::upcast(DataPayload::from_owned(TypeToken { id: 4 }, record2));

    assert!(a == b);
    assert_eq!(a.postcard_size(), 0);
    assert_eq!(a.baked_size(), 0);
    assert_eq!(json_of_box(&a), "{}");
}

#[test]
fn test_baked_size() {
    let record = Record {
        name: String::from("Mixed"),
        module: String::from("demo"),
        fields: vec![
            Field { name: String::from("message"), value: Scalar::Str(String::from("Hello World")) },
            Field { name: String::from("count"), value: Scalar::U64(5) },
            Field { name: String::from("flag"), value: Scalar::Bool(true) },
        ],
    };
    let export = ExportMarker::upcast(DataPayload::from_owned(TypeToken { id: 5 }, record));
    // a 24-byte copy-on-write handle plus 11 borrowed bytes, then 8 and 1
    assert_eq!(export.baked_size(), 24 + 11 + 8 + 1);
}

#[test]
fn test_debug_string_redacts() {
    let export = ExportMarker::upcast(hello_payload("secret"));
    assert_eq!(export.debug_string(), "ExportBox { payload: \"<payload>\" }");
}

#[test]
fn test_get_and_token() {
    let payload = hello_payload("abc");
    assert_eq!(payload.type_token(), TypeToken { id: 1 });
    let record = payload.get();
    assert_eq!(record.fields.len(), 1);
    assert_eq!(record.name, "HelloWorld");
}
