//! The crate's plain functions on plain values.

use font_handles::fontconfig::{
    FcDontCare, FcFalse, FcResult, FcTrue, FC_FAMILY, FC_FILE, FC_FULLNAME, FC_POSTSCRIPT_NAME, FC_SLANT,
    FC_SLANT_ITALIC, FC_SLANT_OBLIQUE, FC_SLANT_ROMAN, FC_STYLE, FC_VARIABLE, FC_WEIGHT, FC_WIDTH,
    FC_WIDTH_CONDENSED, FC_WIDTH_EXPANDED, FC_WIDTH_EXTRACONDENSED, FC_WIDTH_EXTRAEXPANDED, FC_WIDTH_NORMAL,
    FC_WIDTH_SEMICONDENSED, FC_WIDTH_SEMIEXPANDED, FC_WIDTH_ULTRACONDENSED, FC_WIDTH_ULTRAEXPANDED,
};
use font_handles::native::{MmVarRecord, NameRecord, StyleRecord};
use font_handles::path::c_string;
use font_handles::status::{try_dispatch, Error, FT_Err_Ok};
use font_handles::text::decode;

#[test]
fn try_dispatch_tells_success_from_failure() {
    assert_eq!(FT_Err_Ok, 0);
    assert_eq!(try_dispatch(0), Ok(()));
    assert_eq!(try_dispatch(1), Err(1));
    assert_eq!(try_dispatch(-3), Err(-3));
    assert_eq!(try_dispatch(i32::MAX), Err(i32::MAX));
}

#[test]
fn c_string_closes_the_path_with_one_zero() {
    assert_eq!(c_string("a.ttf"), Ok(b"a.ttf\0".to_vec()));
    assert_eq!(c_string(""), Ok(vec![0]));
    assert_eq!(c_string("/usr/share/fonts/é.otf"), Ok("/usr/share/fonts/é.otf\0".as_bytes().to_vec()));
}

#[test]
fn c_string_refuses_a_zero_byte_at_its_first_offset() {
    assert_eq!(c_string("abc\0def"), Err(Error::Encoding(3)));
    assert_eq!(c_string("\0"), Err(Error::Encoding(0)));
    assert_eq!(c_string("ab\0\0"), Err(Error::Encoding(2)));
    assert_eq!(c_string("é\0"), Err(Error::Encoding(2)));
}

#[test]
fn decode_reads_utf8_and_nothing_else() {
    assert_eq!(decode(b"Regular"), Some("Regular"));
    assert_eq!(decode(&[0xc3, 0xa9]), Some("é"));
    assert_eq!(decode(&[0xe2, 0x82, 0xac, 0x21]), Some("€!"));
    assert_eq!(decode(&[]), Some(""));
    assert_eq!(decode(&[0xff]), None);
    assert_eq!(decode(&[0xc3]), None);
    assert_eq!(decode(&[0x00, 0x52]), Some("\0R"));
    assert_eq!(decode(&[0xed, 0xa0, 0x80]), None);
}

#[test]
fn name_record_text_is_its_bytes_decoded() {
    let record = NameRecord {
        platform_id: 1,
        encoding_id: 0,
        language_id: 0,
        name_id: 4,
        string: vec![0x42, 0xc3, 0xb6],
        string_len: 3,
    };
    assert!(record.is_wf());
    assert!(record.has_text());
    assert_eq!(record.text(), "Bö");
    let utf16 = NameRecord {
        platform_id: 3,
        encoding_id: 1,
        language_id: 0x409,
        name_id: 4,
        string: vec![0x00, 0x42, 0xd8, 0x00],
        string_len: 4,
    };
    assert!(utf16.is_wf());
    assert!(!utf16.has_text());
    let cut = NameRecord { platform_id: 1, encoding_id: 0, language_id: 0, name_id: 4, string: vec![0x42], string_len: 3 };
    assert!(!cut.is_wf());
}

#[test]
fn descriptor_record_is_well_formed_when_counts_and_arrays_agree() {
    let empty = MmVarRecord { num_axis: 0, num_designs: 0, num_namedstyles: 0, axis: vec![], namedstyle: vec![] };
    assert!(empty.is_wf());
    let styles_only = MmVarRecord {
        num_axis: 0,
        num_designs: 0,
        num_namedstyles: 2,
        axis: vec![],
        namedstyle: vec![
            StyleRecord { coords: vec![], strid: 0, psid: 0 },
            StyleRecord { coords: vec![], strid: 0, psid: 0 },
        ],
    };
    assert!(styles_only.is_wf());
    let long_style = MmVarRecord {
        num_axis: 0,
        num_designs: 0,
        num_namedstyles: 2,
        axis: vec![],
        namedstyle: vec![
            StyleRecord { coords: vec![], strid: 0, psid: 0 },
            StyleRecord { coords: vec![1], strid: 0, psid: 0 },
        ],
    };
    assert!(!long_style.is_wf());
    let missing_axis = MmVarRecord { num_axis: 1, num_designs: 0, num_namedstyles: 0, axis: vec![], namedstyle: vec![] };
    assert!(!missing_axis.is_wf());
    let missing_style = MmVarRecord { num_axis: 0, num_designs: 0, num_namedstyles: 1, axis: vec![], namedstyle: vec![] };
    assert!(!missing_style.is_wf());
}

#[test]
fn fontconfig_values_are_the_documented_ones() {
    assert_eq!((FcFalse, FcTrue, FcDontCare), (0, 1, 2));
    assert_eq!((FC_SLANT_ROMAN, FC_SLANT_ITALIC, FC_SLANT_OBLIQUE), (0, 100, 110));
    assert_eq!(
        [
            FC_WIDTH_ULTRACONDENSED,
            FC_WIDTH_EXTRACONDENSED,
            FC_WIDTH_CONDENSED,
            FC_WIDTH_SEMICONDENSED,
            FC_WIDTH_NORMAL,
            FC_WIDTH_SEMIEXPANDED,
            FC_WIDTH_EXPANDED,
            FC_WIDTH_EXTRAEXPANDED,
            FC_WIDTH_ULTRAEXPANDED
        ],
        [50, 63, 75, 87, 100, 113, 125, 150, 200]
    );
    assert_eq!(
        [FC_FILE, FC_FULLNAME, FC_POSTSCRIPT_NAME, FC_FAMILY, FC_STYLE, FC_WEIGHT, FC_SLANT, FC_WIDTH, FC_VARIABLE],
        ["file", "fullname", "postscriptname", "family", "style", "weight", "slant", "width", "variable"]
    );
}

#[test]
fn fontconfig_results_are_told_apart() {
    let all = [
        FcResult::FcResultMatch,
        FcResult::FcResultNoMatch,
        FcResult::FcResultTypeMismatch,
        FcResult::FcResultNoId,
        FcResult::FcResultOutOfMemory,
    ];
    for (i, left) in all.iter().enumerate() {
        for (j, right) in all.iter().enumerate() {
            assert_eq!(left == right, i == j);
        }
    }
}
