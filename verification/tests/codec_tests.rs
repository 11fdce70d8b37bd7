use pthesis::codec::canonicalize_rotor;
use pthesis::codec::negate_bits;
use pthesis::codec::sign_bit;
use pthesis::report::Record;
use pthesis::report::csv_field;
use pthesis::report::csv_header;
use pthesis::report::csv_row;
use pthesis::report::record_row;
use pthesis::report::u64_to_dec;
use pthesis::vertices::Vec4Bits;

fn rotor(s: f32, yz: f32, zx: f32, xy: f32) -> Vec4Bits {
    Vec4Bits {
        x: s.to_bits(),
        y: yz.to_bits(),
        z: zx.to_bits(),
        w: xy.to_bits(),
    }
}

#[test]
fn negating_bits_is_float_negation() {
    assert_eq!(f32::from_bits(negate_bits(1.5f32.to_bits())), -1.5);
    assert_eq!(f32::from_bits(negate_bits((-0.25f32).to_bits())), 0.25);
    assert!(sign_bit((-3.0f32).to_bits()));
    assert!(!sign_bit(3.0f32.to_bits()));
    assert!(sign_bit((-0.0f32).to_bits()));
}

/// The identity rotor - the canonical vertex's frame packs to it - is
/// already canonical and stays exactly `[1, 0, 0, 0]`.
#[test]
fn identity_rotor_is_already_canonical() {
    let identity = rotor(1.0, 0.0, 0.0, 0.0);
    let c = canonicalize_rotor(identity);
    assert_eq!(c, identity);
    assert_eq!(
        (f32::from_bits(c.x), f32::from_bits(c.y), f32::from_bits(c.z), f32::from_bits(c.w)),
        (1.0, 0.0, 0.0, 0.0)
    );
}

/// Both double-cover representatives settle on the one with a non-negative
/// scalar part.
#[test]
fn double_cover_settles_on_nonnegative_scalar() {
    let r = rotor(0.5, -0.5, 0.5, -0.5);
    let neg = rotor(-0.5, 0.5, -0.5, 0.5);
    assert_eq!(canonicalize_rotor(r), r);
    assert_eq!(canonicalize_rotor(neg), r);
    assert!(!sign_bit(canonicalize_rotor(neg).x));
}

#[test]
fn decimal_digits_are_exact() {
    assert_eq!(u64_to_dec(0), b"0".to_vec());
    assert_eq!(u64_to_dec(7), b"7".to_vec());
    assert_eq!(u64_to_dec(125000), b"125000".to_vec());
    assert_eq!(u64_to_dec(u64::MAX), b"18446744073709551615".to_vec());
}

#[test]
fn csv_fields_are_quoted_exactly_when_needed() {
    assert_eq!(csv_field(&b"plain".to_vec()), b"plain".to_vec());
    assert_eq!(csv_field(&b"".to_vec()), b"".to_vec());
    assert_eq!(csv_field(&b"a,b".to_vec()), b"\"a,b\"".to_vec());
    assert_eq!(csv_field(&b"say \"hi\"".to_vec()), b"\"say \"\"hi\"\"\"".to_vec());
    assert_eq!(csv_field(&b"two\nlines".to_vec()), b"\"two\nlines\"".to_vec());
}

#[test]
fn csv_rows_join_cells_with_commas() {
    let fields = vec![b"a".to_vec(), b"b,c".to_vec(), b"d".to_vec()];
    assert_eq!(csv_row(&fields), b"a,\"b,c\",d\n".to_vec());
}

#[test]
fn the_log_header_names_every_column() {
    assert_eq!(
        csv_header(),
        b"filename,average_drawtime,std,n_vertices,n_indices,n_fragments\n".to_vec()
    );
}

#[test]
fn a_record_becomes_one_log_row() {
    let rec = Record {
        filename: "nm_rotor.glsl".to_string(),
        average_drawtime: "0.125".to_string(),
        std: "0.001".to_string(),
        n_vertices: 2047161,
        n_indices: 12276300,
        n_fragments: 2560000,
    };
    assert_eq!(
        record_row(&rec),
        b"nm_rotor.glsl,0.125,0.001,2047161,12276300,2560000\n".to_vec()
    );
}

#[test]
fn speed_picks_the_signed_factor() {
    let f = 2.5f32.to_bits();
    assert_eq!(f32::from_bits(pthesis::utils::speed(true, false, f)), 2.5);
    assert_eq!(f32::from_bits(pthesis::utils::speed(false, true, f)), -2.5);
    assert_eq!(f32::from_bits(pthesis::utils::speed(true, true, f)), 0.0);
    assert_eq!(f32::from_bits(pthesis::utils::speed(false, false, f)), 0.0);
}
