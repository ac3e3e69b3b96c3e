use bitcoin_script_gen::generate;
use bitcoin_script_gen::Chain;
use bitcoin_script_gen::Syntax;
use proc_macro2::Span;
use proc_macro2::TokenStream;

fn sp() -> Span {
    Span::call_site()
}

fn ts(source: &str) -> TokenStream {
    source.parse().expect("expression tokens")
}

#[test]
fn empty_input_yields_begin_finalize() {
    let result = generate(Vec::new()).expect("empty sequence generates");
    assert!(matches!(result.chain, Chain::Begin));
}

#[test]
fn opcode_maps_to_catalog_member() {
    let items = vec![(Syntax::Opcode(String::from("OP_DUP")), sp())];
    let result = generate(items).expect("OP_DUP is a catalog member");
    match result.chain {
        Chain::Opcode { base, code, name, .. } => {
            assert_eq!(code, 0x76);
            assert_eq!(name, "OP_DUP");
            assert!(matches!(*base, Chain::Begin));
        }
        _ => panic!("expected a single opcode append"),
    }
}

#[test]
fn opcode_checksig_resolves_to_its_byte() {
    let items = vec![(Syntax::Opcode(String::from("OP_CHECKSIG")), sp())];
    let result = generate(items).expect("OP_CHECKSIG is a catalog member");
    match result.chain {
        Chain::Opcode { code, .. } => assert_eq!(code, 0xac),
        _ => panic!("expected a single opcode append"),
    }
}

#[test]
fn bytes_kept_exactly() {
    let items = vec![(Syntax::Bytes(vec![0xb0, 0xb1, 0xb2]), sp())];
    let result = generate(items).expect("bytes always generate");
    match result.chain {
        Chain::Bytes { base, bytes, .. } => {
            assert_eq!(bytes, vec![0xb0, 0xb1, 0xb2]);
            assert!(matches!(*base, Chain::Begin));
        }
        _ => panic!("expected a single byte-slice append"),
    }
}

#[test]
fn empty_bytes_kept_as_empty_slice() {
    let items = vec![(Syntax::Bytes(Vec::new()), sp())];
    let result = generate(items).expect("empty bytes generate");
    match result.chain {
        Chain::Bytes { bytes, .. } => assert!(bytes.is_empty()),
        _ => panic!("expected a byte-slice append"),
    }
}

#[test]
fn int_boundaries_pass_through_unchanged() {
    let values = [0i64, i64::MIN, i64::MAX, -1];
    for value in values {
        let items = vec![(Syntax::Int(value), sp())];
        let result = generate(items).expect("integers always generate");
        match result.chain {
            Chain::Int { value: got, .. } => assert_eq!(got, value),
            _ => panic!("expected a single integer append"),
        }
    }
}

#[test]
fn order_preserved_across_mixed_items() {
    let items = vec![
        (Syntax::Opcode(String::from("OP_DUP")), sp()),
        (Syntax::Bytes(vec![5]), sp()),
        (Syntax::Int(42), sp()),
        (Syntax::Opcode(String::from("OP_EQUAL")), sp()),
    ];
    let result = generate(items).expect("all items are valid");
    // The chain nests from the last item outward.
    let c4 = result.chain;
    let c3 = match c4 {
        Chain::Opcode { base, name, .. } => {
            assert_eq!(name, "OP_EQUAL");
            *base
        }
        _ => panic!("fourth operation should be an opcode append"),
    };
    let c2 = match c3 {
        Chain::Int { base, value, .. } => {
            assert_eq!(value, 42);
            *base
        }
        _ => panic!("third operation should be an integer append"),
    };
    let c1 = match c2 {
        Chain::Bytes { base, bytes, .. } => {
            assert_eq!(bytes, vec![5]);
            *base
        }
        _ => panic!("second operation should be a byte-slice append"),
    };
    match c1 {
        Chain::Opcode { base, name, .. } => {
            assert_eq!(name, "OP_DUP");
            assert!(matches!(*base, Chain::Begin));
        }
        _ => panic!("first operation should be an opcode append"),
    }
}

#[test]
fn escape_flushes_the_chain_built_so_far() {
    let escaped = ts("my_key.serialize()");
    let expected = escaped.to_string();
    let items = vec![
        (Syntax::Opcode(String::from("OP_DUP")), sp()),
        (Syntax::Escape(escaped), sp()),
        (Syntax::Opcode(String::from("OP_EQUALVERIFY")), sp()),
    ];
    let result = generate(items).expect("all items are valid");
    let after = match result.chain {
        Chain::Opcode { base, name, .. } => {
            assert_eq!(name, "OP_EQUALVERIFY");
            *base
        }
        _ => panic!("the item after the escape should chain on the push"),
    };
    let before = match after {
        Chain::Push { base, expr, .. } => {
            assert_eq!(expr.to_string(), expected);
            *base
        }
        _ => panic!("the escape should become a push of the flushed chain"),
    };
    match before {
        Chain::Opcode { base, name, .. } => {
            assert_eq!(name, "OP_DUP");
            assert!(matches!(*base, Chain::Begin));
        }
        _ => panic!("the flushed chain should hold the item before the escape"),
    }
}

#[test]
fn consecutive_escapes_nest_independently() {
    let first = ts("1 + 2");
    let second = ts("other_value");
    let expected_first = first.to_string();
    let expected_second = second.to_string();
    let items = vec![(Syntax::Escape(first), sp()), (Syntax::Escape(second), sp())];
    let result = generate(items).expect("escapes always generate");
    let outer_base = match result.chain {
        Chain::Push { base, expr, .. } => {
            assert_eq!(expr.to_string(), expected_second);
            *base
        }
        _ => panic!("the second escape should be the outer push"),
    };
    match outer_base {
        Chain::Push { base, expr, .. } => {
            assert_eq!(expr.to_string(), expected_first);
            assert!(matches!(*base, Chain::Begin));
        }
        _ => panic!("the first escape should be the inner push"),
    }
}

#[test]
fn unknown_opcode_fails_with_its_name() {
    let items = vec![
        (Syntax::Int(1), sp()),
        (Syntax::Opcode(String::from("OP_NOT_A_REAL_OP")), sp()),
        (Syntax::Opcode(String::from("OP_DUP")), sp()),
    ];
    let error = generate(items).err().expect("an unknown opcode must fail");
    assert_eq!(error.name, "OP_NOT_A_REAL_OP");
}

#[test]
fn first_unknown_opcode_is_the_one_reported() {
    let items = vec![
        (Syntax::Opcode(String::from("OP_FIRST_BAD")), sp()),
        (Syntax::Opcode(String::from("OP_SECOND_BAD")), sp()),
    ];
    let error = generate(items).err().expect("unknown opcodes must fail");
    assert_eq!(error.name, "OP_FIRST_BAD");
}

#[test]
fn lookup_finds_catalog_members() {
    assert_eq!(
        bitcoin_script_gen::lookup_opcode(&String::from("OP_PUSHBYTES_0")),
        Some(0x00)
    );
    assert_eq!(
        bitcoin_script_gen::lookup_opcode(&String::from("OP_RETURN")),
        Some(0x6a)
    );
    assert_eq!(
        bitcoin_script_gen::lookup_opcode(&String::from("OP_INVALIDOPCODE")),
        Some(0xff)
    );
}

#[test]
fn lookup_rejects_names_outside_the_catalog() {
    assert_eq!(bitcoin_script_gen::lookup_opcode(&String::from("OP_NOT_A_REAL_OP")), None);
    assert_eq!(bitcoin_script_gen::lookup_opcode(&String::from("")), None);
    // Aliases are not catalog members: the catalog lists canonical names only.
    assert_eq!(bitcoin_script_gen::lookup_opcode(&String::from("OP_FALSE")), None);
}
