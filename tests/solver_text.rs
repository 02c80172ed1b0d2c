use chemapp::native::{clen, component_name_block, decode_name, wrap_result, NAME_FIELD};
use chemapp::{ChemAppError, SystemDimensions};

#[test]
fn clen_stops_at_first_blank() {
    assert_eq!(clen(b"FeO  rest"), 3);
    assert_eq!(clen(b"   "), 0);
    assert_eq!(clen(b""), 0);
    assert_eq!(clen(b"NOBLANK"), 7);
}

#[test]
fn wrap_result_zero_code_is_success() {
    assert_eq!(wrap_result(5usize, 0), Ok(5));
}

#[test]
fn wrap_result_nonzero_code_is_native_error() {
    assert_eq!(wrap_result(5usize, 402), Err(ChemAppError::NativeError(402)));
}

#[test]
fn decode_name_trims_padding() {
    let mut buf = [b' '; 25];
    buf[..4].copy_from_slice(b"SiO2");
    assert_eq!(decode_name(&buf), Ok("SiO2".to_string()));
}

#[test]
fn decode_name_drops_nul_bytes() {
    let mut buf = [0u8; 25];
    buf[..2].copy_from_slice(b"Al");
    assert_eq!(decode_name(&buf), Ok("Al".to_string()));
}

#[test]
fn decode_name_keeps_utf8() {
    let text = "Fe\u{e9} x";
    assert_eq!(decode_name(text.as_bytes()), Ok("Fe\u{e9}".to_string()));
}

#[test]
fn decode_name_rejects_invalid_utf8() {
    let buf = [b'A', 0xff, b'B', b' '];
    assert!(matches!(decode_name(&buf), Err(ChemAppError::FormatError(_))));
}

#[test]
fn name_block_pads_and_cuts() {
    let names = vec!["SiO2".to_string(), "A".repeat(30)];
    let block = component_name_block(&names).unwrap();
    assert_eq!(block.len(), 3 * NAME_FIELD);
    assert_eq!(&block[0..4], b"SiO2");
    assert!(block[4..NAME_FIELD].iter().all(|b| *b == b' '));
    assert!(block[NAME_FIELD..2 * NAME_FIELD].iter().all(|b| *b == b'A'));
    assert!(block[2 * NAME_FIELD..].iter().all(|b| *b == b' '));
}

#[test]
fn name_block_of_no_names_is_one_blank_field() {
    let block = component_name_block(&Vec::new()).unwrap();
    assert_eq!(block, vec![b' '; NAME_FIELD]);
}

#[test]
fn name_block_rejects_nul() {
    let names = vec!["Al".to_string(), "O\0".to_string()];
    assert!(matches!(component_name_block(&names), Err(ChemAppError::FormatError(_))));
}

#[test]
fn system_dimensions_start_at_zero() {
    let d = SystemDimensions::new();
    assert_eq!(d.nconstituents, 0);
    assert_eq!(d.ncomponents, 0);
    assert_eq!(d.nmixtures, 0);
    assert_eq!(d.nexcess_gibbs, 0);
    assert_eq!(d.nexcess_magnetic, 0);
    assert_eq!(d.nsublattices, 0);
    assert_eq!(d.nspecies, 0);
    assert_eq!(d.nconstituents_mqm, 0);
    assert_eq!(d.nranges_constituent, 0);
    assert_eq!(d.nranges, 0);
    assert_eq!(d.ndependent, 0);
}
