use sun2000::config::{config_flag, parse_usize};
use sun2000::descriptor::{get_attribute_name, DescriptorError};
use sun2000::param::{CatalogError, Parameter, ParameterBlock};
use sun2000::session::Sun2000;
use sun2000::strutil::{i64_to_dec_string, parse_u8, scaled_to_dec_string, u64_to_dec_string};
use sun2000::value::{decode_value, DecodeError, FieldValue, ParamKind};

fn text_param(name: &'static str, addr: u16, len: u16) -> Parameter {
    Parameter::new(name, ParamKind::Text(None), None, None, 1, addr, len, true, true)
}

#[test]
fn block_accepts_contiguous_run() {
    let b = ParameterBlock::new(vec![
        text_param("model_name", 30000, 15),
        text_param("serial_number", 30015, 10),
        text_param("product_number", 30025, 10),
    ])
    .unwrap();
    assert_eq!(b.reg_address, 30000);
    assert_eq!(b.len, 35);
    assert_eq!(b.parameters.len(), 3);
}

#[test]
fn block_with_gap_fails() {
    let r = ParameterBlock::new(vec![
        text_param("a", 30000, 15),
        text_param("b", 30016, 10),
    ]);
    match r {
        Err(CatalogError::ContiguityGap { expected, found, .. }) => {
            assert_eq!(expected, 30015);
            assert_eq!(found, 30016);
        }
        _ => panic!("a gapped run must be rejected"),
    }
}

#[test]
fn empty_block_fails() {
    assert!(matches!(
        ParameterBlock::new(vec![]),
        Err(CatalogError::EmptyBlock)
    ));
}

#[test]
fn block_rejects_wrong_width() {
    // a 32-bit kind squeezed into one register is a catalog-authoring error
    let r = ParameterBlock::new(vec![Parameter::new(
        "x",
        ParamKind::NumberU32(None),
        None,
        None,
        1,
        30000,
        1,
        false,
        true,
    )]);
    assert!(matches!(r, Err(CatalogError::BadParameter { .. })));
}

#[test]
fn block_spanning_the_whole_address_space_fails() {
    let r = ParameterBlock::new(vec![
        text_param("a", 0, 0xFFFF),
        Parameter::new("b", ParamKind::NumberU16(None), None, None, 1, 0xFFFF, 1, false, true),
    ]);
    assert!(matches!(r, Err(CatalogError::BlockTooLong)));
}

#[test]
fn block_with_shared_name_fails() {
    let r = ParameterBlock::new(vec![
        text_param("serial_number", 30000, 10),
        text_param("serial_number", 30010, 10),
    ]);
    match r {
        Err(CatalogError::DuplicateName { name }) => assert_eq!(name, "serial_number"),
        _ => panic!("a run with a shared name must be rejected"),
    }
}

#[test]
fn block_rejects_single_word_text() {
    // a text kind needs at least two registers
    let r = ParameterBlock::new(vec![text_param("t", 30000, 1)]);
    assert!(matches!(r, Err(CatalogError::BadParameter { .. })));
}

#[test]
fn catalog_builds_and_is_contiguous() {
    let cat = Sun2000::param_table().unwrap();
    assert_eq!(cat.len(), 43);
    for b in &cat {
        let mut expected = b.reg_address;
        for p in &b.parameters {
            assert_eq!(p.reg_address, expected);
            expected = p.reg_address + p.len;
        }
        assert_eq!(expected, b.reg_address + b.len);
    }
    assert_eq!(cat[0].reg_address, 30000);
    assert_eq!(cat[0].len, 35);
    // the identity block, exactly as the device family defines it
    let idents = &cat[0].parameters;
    assert_eq!(idents[0].name, "model_name");
    assert!(matches!(idents[0].value, ParamKind::Text(None)));
    assert_eq!((idents[0].reg_address, idents[0].len), (30000, 15));
    assert_eq!(idents[1].name, "serial_number");
    assert_eq!((idents[1].reg_address, idents[1].len), (30015, 10));
    assert_eq!(idents[2].name, "product_number");
    assert_eq!((idents[2].reg_address, idents[2].len), (30025, 10));
    for p in idents {
        assert_eq!(p.gain, 1);
        assert!(p.initial_read);
        assert!(p.save_to_influx);
    }
    // the steady-state exceptions and the initial-read set
    let mut initial = vec![];
    let mut not_persisted = vec![];
    for b in &cat {
        for p in &b.parameters {
            if p.initial_read {
                initial.push(p.name.clone());
            }
            if !p.save_to_influx {
                not_persisted.push(p.name.clone());
            }
        }
    }
    assert_eq!(
        initial,
        vec![
            "model_name",
            "serial_number",
            "product_number",
            "model_id",
            "nb_pv_strings",
            "nb_mpp_tracks",
            "rated_power",
            "daily_yield_energy"
        ]
    );
    assert_eq!(not_persisted, vec!["nb_optimizers"]);
}

#[test]
fn decode_u16_and_i16() {
    let v = decode_value(&ParamKind::NumberU16(None), None, &[0xFFFF]).unwrap();
    assert!(matches!(v, ParamKind::NumberU16(Some(0xFFFF))));
    let v = decode_value(&ParamKind::NumberI16(None), None, &[0xFFFF]).unwrap();
    assert!(matches!(v, ParamKind::NumberI16(Some(-1))));
    let v = decode_value(&ParamKind::NumberI16(None), None, &[0x7FFF]).unwrap();
    assert!(matches!(v, ParamKind::NumberI16(Some(32767))));
}

#[test]
fn decode_u32_and_i32() {
    let v = decode_value(&ParamKind::NumberU32(None), Some("W"), &[0x0001, 0x0002]).unwrap();
    assert!(matches!(v, ParamKind::NumberU32(Some(0x10002))));
    let v = decode_value(&ParamKind::NumberI32(None), None, &[0xFFFF, 0xFFFE]).unwrap();
    assert!(matches!(v, ParamKind::NumberI32(Some(-2))));
}

#[test]
fn decode_epoch_zero_is_absent() {
    let v = decode_value(&ParamKind::NumberU32(None), Some("epoch"), &[0, 0]).unwrap();
    assert!(matches!(v, ParamKind::NumberU32(None)));
    // a zero that is not an epoch stays zero
    let v = decode_value(&ParamKind::NumberU32(None), Some("W"), &[0, 0]).unwrap();
    assert!(matches!(v, ParamKind::NumberU32(Some(0))));
    // a non-zero epoch stays
    let v = decode_value(&ParamKind::NumberU32(None), Some("epoch"), &[0, 5]).unwrap();
    assert!(matches!(v, ParamKind::NumberU32(Some(5))));
}

#[test]
fn decode_text_drops_zero_bytes() {
    let v = decode_value(&ParamKind::Text(None), None, &[0x4142, 0x0043]).unwrap();
    match v {
        ParamKind::Text(Some(s)) => assert_eq!(s, "ABC"),
        _ => panic!("expected text"),
    }
}

#[test]
fn decode_text_invalid_utf8_fails() {
    let r = decode_value(&ParamKind::Text(None), None, &[0xFFFE]);
    assert_eq!(r.unwrap_err(), DecodeError::MalformedText);
}

fn num_param(value: ParamKind, gain: u16, unit: Option<&'static str>) -> Parameter {
    let len = match &value {
        ParamKind::NumberU32(_) | ParamKind::NumberI32(_) => 2,
        ParamKind::Text(_) => 3,
        _ => 1,
    };
    Parameter::new("p", value, None, unit, gain, 1000, len, false, true)
}

#[test]
fn display_scales_by_gain() {
    let p = num_param(ParamKind::NumberU16(Some(1234)), 10, None);
    assert_eq!(p.get_text_value(), "123.4");
    let p = num_param(ParamKind::NumberU16(Some(12340)), 100, None);
    assert_eq!(p.get_text_value(), "123.4");
    let p = num_param(ParamKind::NumberI16(Some(-1234)), 10, None);
    assert_eq!(p.get_text_value(), "-123.4");
    let p = num_param(ParamKind::NumberU16(Some(1234)), 1, None);
    assert_eq!(p.get_text_value(), "1234");
    let p = num_param(ParamKind::NumberI32(Some(-7)), 1, None);
    assert_eq!(p.get_text_value(), "-7");
}

#[test]
fn display_epoch_value() {
    let p = num_param(ParamKind::NumberU32(None), 1, Some("epoch"));
    assert_eq!(p.get_text_value(), "None");
    let p = num_param(ParamKind::NumberU32(Some(1_600_000_000)), 1, Some("epoch"));
    let s = p.get_text_value();
    assert!(
        s.starts_with("1600000000, ") || s == "timestamp conversion error",
        "unexpected epoch rendering: {}",
        s
    );
}

#[test]
fn influx_value_kinds() {
    let p = num_param(ParamKind::NumberU32(Some(10000)), 1, Some("W"));
    assert!(matches!(p.get_influx_value(), FieldValue::SignedInteger(10000)));
    let p = num_param(ParamKind::NumberU16(Some(1234)), 10, None);
    assert!(matches!(
        p.get_influx_value(),
        FieldValue::Scaled { raw: 1234, gain: 10 }
    ));
    let p = Parameter::new(
        "m",
        ParamKind::Text(Some("SUN2000".to_string())),
        None,
        None,
        1,
        0,
        4,
        true,
        true,
    );
    match p.get_influx_value() {
        FieldValue::Text(s) => assert_eq!(s, "SUN2000"),
        _ => panic!("expected a text field"),
    }
}

#[test]
fn describe_names_variant_and_value() {
    assert_eq!(ParamKind::NumberU16(Some(7)).describe(), "NumberU16: 7");
    assert_eq!(ParamKind::NumberI32(Some(-12)).describe(), "NumberI32: -12");
    assert_eq!(
        ParamKind::Text(Some("abc".to_string())).describe(),
        "Text: abc"
    );
}

#[test]
fn dec_strings() {
    assert_eq!(u64_to_dec_string(0), "0");
    assert_eq!(u64_to_dec_string(10000), "10000");
    assert_eq!(i64_to_dec_string(-5), "-5");
    assert_eq!(scaled_to_dec_string(0, 10), "0");
    assert_eq!(scaled_to_dec_string(5, 10), "0.5");
    assert_eq!(scaled_to_dec_string(-5, 10), "-0.5");
    assert_eq!(scaled_to_dec_string(12340, 100), "123.4");
    assert_eq!(scaled_to_dec_string(100, 10), "10");
    // a non-decimal divisor is cut off after ten long-division digits
    assert_eq!(scaled_to_dec_string(1, 3), "0.3333333333");
}

#[test]
fn parse_decimal_ids() {
    assert_eq!(parse_u8("1"), Some(1));
    assert_eq!(parse_u8("+6"), Some(6));
    assert_eq!(parse_u8("01"), Some(1));
    assert_eq!(parse_u8("256"), None);
    assert_eq!(parse_u8(""), None);
    assert_eq!(parse_u8("-1"), None);
    assert_eq!(parse_u8("1a"), None);
}

#[test]
fn config_values() {
    assert!(config_flag("yes"));
    assert!(config_flag(" true\n"));
    assert!(config_flag("1"));
    assert!(!config_flag("no"));
    assert!(!config_flag("yess"));
    assert!(!config_flag(""));
    assert_eq!(parse_usize("42"), Some(42));
    assert_eq!(parse_usize("x"), None);
}

#[test]
fn attribute_names() {
    assert_eq!(get_attribute_name("1"), "Device model");
    assert_eq!(get_attribute_name("4"), "ESN");
    assert_eq!(get_attribute_name("6"), "Feature version");
    assert_eq!(get_attribute_name("7"), "Unknown attribute");
    assert_eq!(get_attribute_name("x"), "Unknown attribute");
}

fn device(partial: bool) -> Sun2000 {
    Sun2000 {
        name: "sun2000".to_string(),
        host_port: "127.0.0.1:502".to_string(),
        poll_ok: 0,
        poll_errors: 0,
        influxdb_url: None,
        influxdb_token: None,
        mode_change_script: None,
        dongle_connection: false,
        partial,
    }
}

#[test]
fn descriptor_parses_attribute_pairs() {
    let dev = device(false);
    let mut bytes = vec![0x01, 0x02];
    let payload = b"1=SUN2000-10KTL;2=V100R001;junk;7=x";
    bytes.push(0x88);
    bytes.push(payload.len() as u8);
    bytes.extend_from_slice(payload);
    let attrs = dev.attribute_parser(bytes).unwrap();
    assert_eq!(attrs.len(), 3);
    assert_eq!(attrs[0].id, "1");
    assert_eq!(attrs[0].name, "Device model");
    assert_eq!(attrs[0].value, "SUN2000-10KTL");
    assert_eq!(attrs[1].id, "2");
    assert_eq!(attrs[1].name, "Device software version");
    assert_eq!(attrs[1].value, "V100R001");
    assert_eq!(attrs[2].id, "7");
    assert_eq!(attrs[2].name, "Unknown attribute");
    assert_eq!(attrs[2].value, "x");
}

#[test]
fn descriptor_without_marker_is_empty() {
    let dev = device(false);
    let attrs = dev.attribute_parser(vec![0x01, 0x02, 0x03]).unwrap();
    assert!(attrs.is_empty());
}

#[test]
fn descriptor_truncated_fails() {
    let dev = device(false);
    assert_eq!(
        dev.attribute_parser(vec![0x88]).unwrap_err(),
        DescriptorError::Truncated
    );
    assert_eq!(
        dev.attribute_parser(vec![0x88, 10, b'1']).unwrap_err(),
        DescriptorError::Truncated
    );
}

#[test]
fn descriptor_invalid_utf8_fails() {
    let dev = device(false);
    assert_eq!(
        dev.attribute_parser(vec![0x88, 2, 0xFF, 0xFE]).unwrap_err(),
        DescriptorError::MalformedText
    );
}

#[test]
fn slave_id_follows_attachment() {
    let mut dev = device(false);
    assert_eq!(dev.slave_id(), 0);
    dev.dongle_connection = true;
    assert_eq!(dev.slave_id(), 1);
}
