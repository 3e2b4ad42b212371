use timber_store::codec::{decode_sales, decode_timber, encode_sales, encode_timber, MAX_RECORD_BYTES, SALES_BYTES, TIMBER_BYTES};
use timber_store::records::{Error, Sales, Timber, TimberSize, TimberType};
use timber_store::records::{parse_timber_size, parse_timber_type};
use timber_store::text::u64_text;

#[test]
fn timber_encoding_round_trips() {
    let t = Timber {
        id: 7,
        timber_type: TimberType::Cedar,
        timber_size: TimberSize::S6x2,
        quantity: 12,
        created_at: 1234567890,
        updated_at: Some(9876543210),
    };
    let bytes = encode_timber(&t);
    assert_eq!(bytes.len(), TIMBER_BYTES);
    assert!(bytes.len() <= MAX_RECORD_BYTES);
    assert_eq!(decode_timber(&bytes), Some(t));

    let fresh = Timber { updated_at: None, ..t };
    let fresh_bytes = encode_timber(&fresh);
    assert_eq!(decode_timber(&fresh_bytes), Some(fresh));
}

#[test]
fn sales_encoding_round_trips() {
    let s = Sales {
        id: 3,
        timber_id: 1,
        quantity: 4,
        price: 250,
        created_at: 42,
        updated_at: None,
    };
    let bytes = encode_sales(&s);
    assert_eq!(bytes.len(), SALES_BYTES);
    assert!(bytes.len() <= MAX_RECORD_BYTES);
    assert_eq!(decode_sales(&bytes), Some(s));
}

#[test]
fn timber_encoding_exact_layout() {
    let t = Timber {
        id: 0x0102030405060708,
        timber_type: TimberType::Oak,
        timber_size: TimberSize::S4x4,
        quantity: 2,
        created_at: 1,
        updated_at: None,
    };
    let bytes = encode_timber(&t);
    // Identifier, little endian.
    assert_eq!(&bytes[0..8], &[8u8, 7, 6, 5, 4, 3, 2, 1][..]);
    // Category and dimension tags.
    assert_eq!(bytes[8], 2);
    assert_eq!(bytes[9], 7);
    // Quantity and creation time, little endian.
    assert_eq!(&bytes[10..18], &[2u8, 0, 0, 0, 0, 0, 0, 0][..]);
    assert_eq!(&bytes[18..26], &[1u8, 0, 0, 0, 0, 0, 0, 0][..]);
    // Absent update time: presence byte zero, then zero.
    assert_eq!(bytes[26], 0);
    assert_eq!(&bytes[27..35], &[0u8; 8][..]);
}

#[test]
fn malformed_slots_decode_to_none() {
    assert_eq!(decode_timber(&[]), None);
    assert_eq!(decode_sales(&[0; 10]), None);
    let t = Timber {
        id: 1,
        timber_type: TimberType::Pine,
        timber_size: TimberSize::S2x6,
        quantity: 1,
        created_at: 0,
        updated_at: None,
    };
    let mut bytes = encode_timber(&t);
    bytes[8] = 200;
    assert_eq!(decode_timber(&bytes), None, "an unknown category tag is rejected");
}

#[test]
fn parse_and_render_category_names() {
    for name in ["cyprus", "pine", "oak", "cedar", "spruce"] {
        let t = parse_timber_type(name).unwrap();
        assert_eq!(t.to_text(), name);
    }
    assert_eq!(parse_timber_type("bamboo"), None);
    assert_eq!(parse_timber_type("Oak"), None);
    for name in [
        "2x4", "2x6", "2x8", "2x10", "3x2", "3x4", "4x2", "4x4", "4x6", "6x2", "6x4", "8x2",
        "8x4", "10x2", "10x4",
    ] {
        let z = parse_timber_size(name).unwrap();
        assert_eq!(z.to_text(), name);
    }
    assert_eq!(parse_timber_size("9x9"), None);
}

#[test]
fn decimal_rendering_is_exact() {
    assert_eq!(u64_text(0), "0");
    assert_eq!(u64_text(7), "7");
    assert_eq!(u64_text(10), "10");
    assert_eq!(u64_text(9999), "9999");
    assert_eq!(u64_text(u64::MAX), "18446744073709551615");
}

#[test]
fn error_messages_name_the_cause() {
    assert_eq!(
        Error::TimberNotFound { id: 42 }.message(),
        "Timber with id=42 not found"
    );
    assert_eq!(
        Error::SalesNotFound { id: 9999 }.message(),
        "Sales with id=9999 not found"
    );
    assert_eq!(
        Error::InvalidTimberType { given: "bamboo".to_string() }.message(),
        "Invalid timber type: bamboo. Valid types are: [\"cyprus\", \"pine\", \"oak\", \"cedar\", \"spruce\"]"
    );
    assert_eq!(
        Error::InvalidTimberSize { given: "9x9".to_string() }.message(),
        "Invalid timber size: 9x9. Valid sizes are: [\"2x4\", \"2x6\", \"2x8\", \"2x10\", \"3x2\", \"3x4\", \"4x2\", \"4x4\", \"4x6\", \"6x2\", \"6x4\", \"8x2\", \"8x4\", \"10x2\", \"10x4\"]"
    );
    assert_eq!(Error::ZeroQuantity.message(), "Quantity must be greater than zero");
    assert_eq!(Error::ZeroPrice.message(), "Price must be greater than zero");
}

#[test]
fn update_and_delete_messages_name_the_operation() {
    assert_eq!(
        Error::TimberNotFound { id: 4 }.update_message(),
        "Couldn't update timber with id=4. Timber not found"
    );
    assert_eq!(
        Error::SalesNotFound { id: 63 }.update_message(),
        "Couldn't update sales with id=63. Sales not found"
    );
    assert_eq!(
        Error::TimberNotFound { id: 4 }.delete_message(),
        "Couldn't delete timber with id=4. Timber not found"
    );
    assert_eq!(
        Error::SalesNotFound { id: 63 }.delete_message(),
        "Couldn't delete sales with id=63. Sales not found"
    );
    // Validation failures read the same whatever the operation.
    assert_eq!(Error::ZeroQuantity.update_message(), "Quantity must be greater than zero");
    assert_eq!(
        Error::InvalidTimberType { given: "bamboo".to_string() }.delete_message(),
        Error::InvalidTimberType { given: "bamboo".to_string() }.message()
    );
}
