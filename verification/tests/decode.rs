use move_core_types::account_address::AccountAddress;
use move_core_types::identifier::Identifier;
use move_core_types::value::{MoveStruct, MoveValue};
use sui_events::decoder::{decode, read_decoded, to_move_struct_layout, typed_struct_from_move};
use sui_events::error::SuiError;
use sui_events::event::{Event, MoveEvent};
use sui_events::layout::{FieldLayout, StructLayout, TypeLayout};
use sui_events::object::ObjectFormatOptions;
use sui_events::struct_value::{DecodedValue, StructValue};
use sui_events::type_tag::{MoveAddress, StructTag, TypeTag};

fn tag(module: &str, name: &str, type_params: Vec<TypeTag>) -> StructTag {
    StructTag {
        address: MoveAddress([0, 0, 0, 0, 0, 0, 0, 0, 0, 0, 0, 0, 0, 0, 0, 2]),
        module: module.to_string(),
        name: name.to_string(),
        type_params,
    }
}

fn coin_tag() -> StructTag {
    tag("coin", "Coin", vec![TypeTag::U64])
}

fn field(name: &str, layout: TypeLayout) -> FieldLayout {
    FieldLayout { name: name.to_string(), layout }
}

fn named(name: &str, value: DecodedValue) -> (String, DecodedValue) {
    (name.to_string(), value)
}

fn coin_fields() -> Vec<FieldLayout> {
    vec![field("value", TypeLayout::U64)]
}

fn forty_two() -> Vec<u8> {
    vec![42, 0, 0, 0, 0, 0, 0, 0]
}

fn error(cause: &str) -> SuiError {
    SuiError::ObjectSerializationError { error: cause.to_string() }
}

const MISFIT: &str = "the decoded fields are not in the shape of the layout";
const INVALID_NAME: &str = "the layout names a field with something that is no identifier";

/// A listing: an owner, a flag, a price in a nested coin, tags as bytes, and bids as
/// a vector of structs. With the types of its structs where `typed`.
fn listing_layout(typed: bool) -> StructLayout {
    let structure = |type_: StructTag, fields: Vec<FieldLayout>| {
        if typed {
            StructLayout::WithTypes { type_, fields }
        } else {
            StructLayout::WithFields(fields)
        }
    };
    let coin = || TypeLayout::Struct(structure(coin_tag(), coin_fields()));
    let bid = TypeLayout::Struct(structure(
        tag("market", "Bid", vec![]),
        vec![field("bidder", TypeLayout::Signer), field("offer", coin())],
    ));
    structure(
        tag("market", "Listing", vec![TypeTag::Struct(coin_tag())]),
        vec![
            field("owner", TypeLayout::Address),
            field("open", TypeLayout::Bool),
            field("price", coin()),
            field("label", TypeLayout::Vector(Box::new(TypeLayout::U8))),
            field("bids", TypeLayout::Vector(Box::new(bid))),
            field("nonce", TypeLayout::U128),
        ],
    )
}

fn listing_bytes() -> Vec<u8> {
    let mut bytes = Vec::new();
    bytes.extend_from_slice(&[0xAA; 16]); // owner
    bytes.push(1); // open
    bytes.extend_from_slice(&1000u64.to_le_bytes()); // price.value
    bytes.extend_from_slice(&[3, b'a', b'r', b't']); // label
    bytes.push(2); // two bids
    bytes.extend_from_slice(&[0xB1; 16]);
    bytes.extend_from_slice(&7u64.to_le_bytes());
    bytes.extend_from_slice(&[0xB2; 16]);
    bytes.extend_from_slice(&8u64.to_le_bytes());
    bytes.extend_from_slice(&(u128::MAX - 1).to_le_bytes()); // nonce
    bytes
}

fn listing_value(typed: bool) -> StructValue {
    let structure = |type_: StructTag, fields: Vec<(String, DecodedValue)>| {
        if typed {
            StructValue::WithTypes { type_, fields }
        } else {
            StructValue::WithFields(fields)
        }
    };
    let coin = |value: u64| {
        DecodedValue::Struct(structure(coin_tag(), vec![named("value", DecodedValue::U64(value))]))
    };
    let bid = |bidder: u8, offer: u64| {
        DecodedValue::Struct(structure(
            tag("market", "Bid", vec![]),
            vec![
                named("bidder", DecodedValue::Signer(MoveAddress([bidder; 16]))),
                named("offer", coin(offer)),
            ],
        ))
    };
    structure(
        tag("market", "Listing", vec![TypeTag::Struct(coin_tag())]),
        vec![
            named("owner", DecodedValue::Address(MoveAddress([0xAA; 16]))),
            named("open", DecodedValue::Bool(true)),
            named("price", coin(1000)),
            named(
                "label",
                DecodedValue::Vector(vec![
                    DecodedValue::U8(b'a'),
                    DecodedValue::U8(b'r'),
                    DecodedValue::U8(b't'),
                ]),
            ),
            named("bids", DecodedValue::Vector(vec![bid(0xB1, 7), bid(0xB2, 8)])),
            named("nonce", DecodedValue::U128(u128::MAX - 1)),
        ],
    )
}

/// The listing as `move_core_types` holds it, with bare fields: what its encoder takes.
fn listing_as_encoded_from() -> MoveValue {
    let coin = |value: u64| MoveValue::Struct(MoveStruct::Runtime(vec![MoveValue::U64(value)]));
    let bid = |bidder: u8, offer: u64| {
        MoveValue::Struct(MoveStruct::Runtime(vec![
            MoveValue::Signer(AccountAddress::new([bidder; 16])),
            coin(offer),
        ]))
    };
    MoveValue::Struct(MoveStruct::Runtime(vec![
        MoveValue::Address(AccountAddress::new([0xAA; 16])),
        MoveValue::Bool(true),
        coin(1000),
        MoveValue::vector_u8(b"art".to_vec()),
        MoveValue::Vector(vec![bid(0xB1, 7), bid(0xB2, 8)]),
        MoveValue::U128(u128::MAX - 1),
    ]))
}

#[test]
fn coin_decodes_with_fields_only() {
    let event = MoveEvent { type_: coin_tag(), contents: forty_two() };
    let format = ObjectFormatOptions { include_types: false };
    let resolved = Ok(TypeLayout::Struct(StructLayout::WithFields(coin_fields())));
    let decoded = event.to_move_struct_with_resolver(format, resolved);
    assert_eq!(decoded, Ok(StructValue::WithFields(vec![named("value", DecodedValue::U64(42))])));
}

#[test]
fn coin_decodes_with_fields_and_types() {
    let event = MoveEvent { type_: coin_tag(), contents: forty_two() };
    let format = ObjectFormatOptions { include_types: true };
    let resolved =
        Ok(TypeLayout::Struct(StructLayout::WithTypes { type_: coin_tag(), fields: coin_fields() }));
    let layout = event.get_layout(format, resolved).unwrap();
    match &layout {
        StructLayout::WithTypes { type_, .. } => {
            assert_eq!(type_.module, "coin");
            assert_eq!(type_.name, "Coin");
            assert_eq!(type_, &coin_tag());
        }
        _ => panic!("the layout does not carry the type"),
    }
    assert!(layout.has_mode(true));
    assert!(!layout.has_mode(false));
    assert_eq!(
        event.to_move_struct(&layout),
        Ok(StructValue::WithTypes {
            type_: coin_tag(),
            fields: vec![named("value", DecodedValue::U64(42))],
        })
    );
    let resolved =
        Ok(TypeLayout::Struct(StructLayout::WithTypes { type_: coin_tag(), fields: coin_fields() }));
    assert_eq!(
        event.to_move_struct_with_resolver(format, resolved),
        Ok(StructValue::WithTypes {
            type_: coin_tag(),
            fields: vec![named("value", DecodedValue::U64(42))],
        })
    );
}

#[test]
fn extract_move_struct_of_move_event() {
    let event = Event::move_event(coin_tag(), forty_two());
    let resolved = Some(Ok(TypeLayout::Struct(StructLayout::WithFields(coin_fields()))));
    assert_eq!(
        event.extract_move_struct(resolved),
        Ok(Some(StructValue::WithFields(vec![named("value", DecodedValue::U64(42))])))
    );
    let short = Event::move_event(coin_tag(), vec![42, 0, 0]);
    let resolved = Some(Ok(TypeLayout::Struct(StructLayout::WithFields(coin_fields()))));
    assert_eq!(short.extract_move_struct(resolved), Err(error("unexpected end of input")));
}

#[test]
fn nested_listing_decodes_in_both_modes() {
    assert_eq!(decode(&listing_bytes(), &listing_layout(false)), Ok(listing_value(false)));
    assert_eq!(decode(&listing_bytes(), &listing_layout(true)), Ok(listing_value(true)));
}

#[test]
fn resolved_layout_keeps_its_mode() {
    let event = MoveEvent { type_: coin_tag(), contents: listing_bytes() };
    for include_types in [false, true] {
        let format = ObjectFormatOptions { include_types };
        let resolved = TypeLayout::Struct(listing_layout(include_types));
        assert!(resolved.has_mode(include_types));
        let layout = event.get_layout(format, Ok(resolved)).unwrap();
        assert_eq!(layout, listing_layout(include_types));
        assert!(layout.has_mode(include_types));
        assert!(!layout.has_mode(!include_types));
        assert_eq!(event.to_move_struct(&layout), Ok(listing_value(include_types)));
    }
}

#[test]
fn encoded_value_decodes_to_itself() {
    let encoded = listing_as_encoded_from().simple_serialize().unwrap();
    assert_eq!(encoded, listing_bytes());
    assert_eq!(decode(&encoded, &listing_layout(false)), Ok(listing_value(false)));
    assert_eq!(decode(&encoded, &listing_layout(true)), Ok(listing_value(true)));

    for amount in [0u64, 1, 255, 256, u64::MAX] {
        let encoded = MoveValue::Struct(MoveStruct::Runtime(vec![MoveValue::U64(amount)]))
            .simple_serialize()
            .unwrap();
        assert_eq!(
            decode(&encoded, &StructLayout::WithFields(coin_fields())),
            Ok(StructValue::WithFields(vec![named("value", DecodedValue::U64(amount))]))
        );
    }
}

#[test]
fn every_truncation_fails() {
    let whole = listing_bytes();
    for layout in [listing_layout(false), listing_layout(true)] {
        for kept in 0..whole.len() {
            let cut = whole[..kept].to_vec();
            assert!(
                matches!(decode(&cut, &layout), Err(SuiError::ObjectSerializationError { .. })),
                "decoded from the first {} bytes",
                kept
            );
        }
    }
    let mut contents = forty_two();
    contents.pop();
    assert_eq!(
        decode(&contents, &StructLayout::WithFields(coin_fields())),
        Err(error("unexpected end of input"))
    );
    assert_eq!(
        decode(&Vec::new(), &StructLayout::WithFields(coin_fields())),
        Err(error("unexpected end of input"))
    );
}

#[test]
fn trailing_bytes_fail() {
    let mut contents = forty_two();
    contents.push(0);
    assert_eq!(
        decode(&contents, &StructLayout::WithFields(coin_fields())),
        Err(error("remaining input"))
    );
    let mut contents = listing_bytes();
    contents.push(7);
    assert!(decode(&contents, &listing_layout(true)).is_err());
}

#[test]
fn malformed_bool_fails() {
    let layout = StructLayout::WithFields(vec![field("open", TypeLayout::Bool)]);
    assert_eq!(
        decode(&vec![0], &layout),
        Ok(StructValue::WithFields(vec![named("open", DecodedValue::Bool(false))]))
    );
    assert_eq!(
        decode(&vec![1], &layout),
        Ok(StructValue::WithFields(vec![named("open", DecodedValue::Bool(true))]))
    );
    assert_eq!(decode(&vec![2], &layout), Err(error("expected boolean")));
}

#[test]
fn leaves_decode_by_their_width() {
    let layout = StructLayout::WithFields(vec![
        field("a", TypeLayout::U8),
        field("b", TypeLayout::U64),
        field("c", TypeLayout::U128),
        field("d", TypeLayout::Address),
        field("e", TypeLayout::Signer),
    ]);
    let mut bytes = vec![0xFE];
    bytes.extend_from_slice(&[1, 2, 0, 0, 0, 0, 0, 0]);
    bytes.extend_from_slice(&[3, 0, 0, 0, 0, 0, 0, 0, 0, 0, 0, 0, 0, 0, 0, 4]);
    let address: [u8; 16] = [1, 2, 3, 4, 5, 6, 7, 8, 9, 10, 11, 12, 13, 14, 15, 16];
    bytes.extend_from_slice(&address);
    bytes.extend_from_slice(&[0x11; 16]);
    assert_eq!(bytes.len(), 1 + 8 + 16 + 16 + 16);
    assert_eq!(
        decode(&bytes, &layout),
        Ok(StructValue::WithFields(vec![
            named("a", DecodedValue::U8(0xFE)),
            named("b", DecodedValue::U64(513)),
            named("c", DecodedValue::U128(3 + (4u128 << 120))),
            named("d", DecodedValue::Address(MoveAddress(address))),
            named("e", DecodedValue::Signer(MoveAddress([0x11; 16]))),
        ]))
    );
}

#[test]
fn vectors_carry_their_length() {
    let layout = StructLayout::WithFields(vec![field(
        "rows",
        TypeLayout::Vector(Box::new(TypeLayout::Vector(Box::new(TypeLayout::U64)))),
    )]);
    let mut bytes = vec![2, 0, 1];
    bytes.extend_from_slice(&9u64.to_le_bytes());
    assert_eq!(
        decode(&bytes, &layout),
        Ok(StructValue::WithFields(vec![named(
            "rows",
            DecodedValue::Vector(vec![
                DecodedValue::Vector(vec![]),
                DecodedValue::Vector(vec![DecodedValue::U64(9)]),
            ]),
        )]))
    );
    assert_eq!(
        decode(&vec![0], &layout),
        Ok(StructValue::WithFields(vec![named("rows", DecodedValue::Vector(vec![]))]))
    );
    assert!(decode(&vec![3, 0, 0], &layout).is_err());
}

#[test]
fn bare_layout_gives_bare_fields() {
    let layout = StructLayout::Runtime(vec![
        TypeLayout::U8,
        TypeLayout::Struct(StructLayout::Runtime(vec![TypeLayout::Bool])),
    ]);
    assert_eq!(
        decode(&vec![5, 1], &layout),
        Ok(StructValue::Runtime(vec![
            DecodedValue::U8(5),
            DecodedValue::Struct(StructValue::Runtime(vec![DecodedValue::Bool(true)])),
        ]))
    );
    assert_eq!(decode(&vec![], &StructLayout::Runtime(vec![])), Ok(StructValue::Runtime(vec![])));
    assert_eq!(
        decode(&vec![], &StructLayout::WithFields(vec![])),
        Ok(StructValue::WithFields(vec![]))
    );
}

#[test]
fn field_names_must_be_identifiers() {
    for name in ["value", "_x", "_1", "<SELF>", "a1_B", "Z"] {
        let layout = StructLayout::WithFields(vec![field(name, TypeLayout::U8)]);
        assert_eq!(
            decode(&vec![9], &layout),
            Ok(StructValue::WithFields(vec![named(name, DecodedValue::U8(9))])),
            "{}",
            name
        );
        assert!(to_move_struct_layout(&layout).is_some(), "{}", name);
    }
    for name in ["", "_", "1a", "a-b", "a b", "<SELF", "<SELF>x", "\u{e9}t\u{e9}", "a\u{e9}"] {
        let layout = StructLayout::WithFields(vec![field(name, TypeLayout::U8)]);
        assert_eq!(decode(&vec![9], &layout), Err(error(INVALID_NAME)), "{}", name);
        assert!(to_move_struct_layout(&layout).is_none(), "{}", name);
    }
    let deep = StructLayout::WithTypes {
        type_: coin_tag(),
        fields: vec![field(
            "inner",
            TypeLayout::Vector(Box::new(TypeLayout::Struct(StructLayout::Runtime(vec![
                TypeLayout::Struct(StructLayout::WithFields(vec![field("9", TypeLayout::U8)])),
            ])))),
        )],
    };
    assert_eq!(decode(&vec![0], &deep), Err(error(INVALID_NAME)));
}

#[test]
fn types_are_left_out_of_what_is_handed_on() {
    let typed = to_move_struct_layout(&listing_layout(true)).unwrap();
    let plain = to_move_struct_layout(&listing_layout(false)).unwrap();
    assert_eq!(format!("{}", typed), format!("{}", plain));
    assert_eq!(
        format!("{}", to_move_struct_layout(&StructLayout::WithFields(coin_fields())).unwrap()),
        "{ value: u64, }"
    );
    assert_eq!(
        format!(
            "{}",
            to_move_struct_layout(&StructLayout::Runtime(vec![
                TypeLayout::Bool,
                TypeLayout::Vector(Box::new(TypeLayout::Address)),
                TypeLayout::Signer,
                TypeLayout::U8,
                TypeLayout::U128,
            ]))
            .unwrap()
        ),
        "{ 0: bool, 1: vector<address>, 2: signer, 3: u8, 4: u128, }"
    );
}

fn ident(name: &str) -> Identifier {
    Identifier::new(name).unwrap()
}

#[test]
fn decoded_struct_is_read_under_the_layout() {
    let decoded = MoveStruct::WithFields(vec![(ident("value"), MoveValue::U64(42))]);
    assert_eq!(
        typed_struct_from_move(&decoded, &StructLayout::WithFields(coin_fields())),
        Some(StructValue::WithFields(vec![named("value", DecodedValue::U64(42))]))
    );
    assert_eq!(
        typed_struct_from_move(
            &decoded,
            &StructLayout::WithTypes { type_: coin_tag(), fields: coin_fields() }
        ),
        Some(StructValue::WithTypes {
            type_: coin_tag(),
            fields: vec![named("value", DecodedValue::U64(42))],
        })
    );
    let address = MoveStruct::Runtime(vec![MoveValue::Address(AccountAddress::new([
        1, 2, 3, 4, 5, 6, 7, 8, 9, 10, 11, 12, 13, 14, 15, 16,
    ]))]);
    assert_eq!(
        typed_struct_from_move(&address, &StructLayout::Runtime(vec![TypeLayout::Address])),
        Some(StructValue::Runtime(vec![DecodedValue::Address(MoveAddress([
            1, 2, 3, 4, 5, 6, 7, 8, 9, 10, 11, 12, 13, 14, 15, 16,
        ]))]))
    );
}

#[test]
fn decoded_struct_out_of_shape_is_refused() {
    let decoded = MoveStruct::WithFields(vec![(ident("value"), MoveValue::U64(42))]);
    let layouts = vec![
        // another name
        StructLayout::WithFields(vec![field("amount", TypeLayout::U64)]),
        // another kind
        StructLayout::WithFields(vec![field("value", TypeLayout::U8)]),
        // one field more
        StructLayout::WithFields(vec![
            field("value", TypeLayout::U64),
            field("more", TypeLayout::Bool),
        ]),
        // none
        StructLayout::WithFields(vec![]),
        // bare
        StructLayout::Runtime(vec![TypeLayout::U64]),
        // a vector where the leaf is
        StructLayout::WithTypes {
            type_: coin_tag(),
            fields: vec![field("value", TypeLayout::Vector(Box::new(TypeLayout::U64)))],
        },
    ];
    for layout in &layouts {
        assert_eq!(typed_struct_from_move(&decoded, layout), None);
        assert_eq!(read_decoded(Ok(decoded.clone()), layout), Err(error(MISFIT)));
    }
    let bare = MoveStruct::Runtime(vec![MoveValue::Bool(true), MoveValue::Signer(AccountAddress::ZERO)]);
    assert_eq!(
        typed_struct_from_move(&bare, &StructLayout::Runtime(vec![TypeLayout::Bool])),
        None
    );
    assert_eq!(
        typed_struct_from_move(
            &bare,
            &StructLayout::Runtime(vec![TypeLayout::Bool, TypeLayout::Address])
        ),
        None
    );
    assert_eq!(
        typed_struct_from_move(
            &bare,
            &StructLayout::WithFields(vec![
                field("a", TypeLayout::Bool),
                field("b", TypeLayout::Signer),
            ])
        ),
        None
    );
    let nested = MoveStruct::Runtime(vec![MoveValue::Vector(vec![
        MoveValue::U8(1),
        MoveValue::Bool(false),
    ])]);
    assert_eq!(
        typed_struct_from_move(
            &nested,
            &StructLayout::Runtime(vec![TypeLayout::Vector(Box::new(TypeLayout::U8))])
        ),
        None
    );
}

#[test]
fn failure_of_the_decoder_keeps_its_message() {
    let layout = StructLayout::WithFields(coin_fields());
    assert_eq!(
        read_decoded(Err(anyhow::Error::msg("unexpected end of input")), &layout),
        Err(error("unexpected end of input"))
    );
    assert_eq!(read_decoded(Err(anyhow::Error::msg("")), &layout), Err(error("")));
    let decoded = MoveStruct::WithFields(vec![(ident("value"), MoveValue::U64(1))]);
    assert_eq!(
        read_decoded(Ok(decoded), &layout),
        Ok(StructValue::WithFields(vec![named("value", DecodedValue::U64(1))]))
    );
}

#[test]
fn layouts_know_their_mode() {
    assert!(listing_layout(true).has_mode(true));
    assert!(!listing_layout(true).has_mode(false));
    assert!(listing_layout(false).has_mode(false));
    assert!(!listing_layout(false).has_mode(true));

    // one struct deep inside in the other mode
    let inner = |typed: bool| {
        if typed {
            StructLayout::WithTypes { type_: coin_tag(), fields: coin_fields() }
        } else {
            StructLayout::WithFields(coin_fields())
        }
    };
    let around = |typed: bool, inside: StructLayout| {
        let fields = vec![field(
            "coins",
            TypeLayout::Vector(Box::new(TypeLayout::Vector(Box::new(TypeLayout::Struct(inside))))),
        )];
        if typed {
            StructLayout::WithTypes { type_: tag("bank", "Vault", vec![]), fields }
        } else {
            StructLayout::WithFields(fields)
        }
    };
    assert!(around(true, inner(true)).has_mode(true));
    assert!(!around(true, inner(false)).has_mode(true));
    assert!(!around(true, inner(false)).has_mode(false));
    assert!(around(false, inner(false)).has_mode(false));
    assert!(!around(false, inner(true)).has_mode(false));
    assert!(!around(false, inner(true)).has_mode(true));

    // bare fields are of neither mode
    let bare = StructLayout::Runtime(vec![TypeLayout::U8]);
    assert!(!bare.has_mode(true));
    assert!(!bare.has_mode(false));
    assert!(!around(false, StructLayout::Runtime(vec![])).has_mode(false));

    // a leaf has nothing to keep
    assert!(TypeLayout::U64.has_mode(true));
    assert!(TypeLayout::U64.has_mode(false));
    assert!(TypeLayout::Vector(Box::new(TypeLayout::Struct(inner(true)))).has_mode(true));
    assert!(!TypeLayout::Vector(Box::new(TypeLayout::Struct(inner(true)))).has_mode(false));
    assert!(TypeLayout::Struct(inner(true)).has_mode(true));
    assert!(!TypeLayout::Struct(inner(true)).has_mode(false));
    assert!(TypeLayout::Struct(inner(false)).has_mode(false));
}

#[test]
fn layouts_and_values_copy_whole() {
    for typed in [false, true] {
        let layout = listing_layout(typed);
        assert_eq!(layout.clone(), layout);
        let value = listing_value(typed);
        assert_eq!(value.clone(), value);
        let wrapped = TypeLayout::Vector(Box::new(TypeLayout::Struct(listing_layout(typed))));
        assert_eq!(wrapped.clone(), wrapped);
        let wrapped = DecodedValue::Vector(vec![DecodedValue::Struct(listing_value(typed))]);
        assert_eq!(wrapped.clone(), wrapped);
    }
    let bare = StructLayout::Runtime(vec![TypeLayout::Signer, TypeLayout::U128]);
    assert_eq!(bare.clone(), bare);
    let bare = StructValue::Runtime(vec![DecodedValue::Bool(true), DecodedValue::U128(5)]);
    assert_eq!(bare.clone(), bare);
    assert_ne!(listing_layout(true).clone(), listing_layout(false));
    assert_ne!(listing_value(true).clone(), listing_value(false));
    let one = field("value", TypeLayout::U64);
    assert_eq!(one.clone(), one);
}
