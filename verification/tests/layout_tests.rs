use core::mem;
use pthesis::imvec::ImVec2;
use pthesis::imvec::ImVec4;
use pthesis::vertices::All;
use pthesis::vertices::CayleyMotor;
use pthesis::vertices::CayleyRotor;
use pthesis::vertices::GlslDType;
use pthesis::vertices::Matrix;
use pthesis::vertices::Motor;
use pthesis::vertices::MotorBits;
use pthesis::vertices::MotorLogBits;
use pthesis::vertices::OuterMotor;
use pthesis::vertices::OuterRotor;
use pthesis::vertices::PosNorm;
use pthesis::vertices::PosUVCol;
use pthesis::vertices::PosUVNormTang;
use pthesis::vertices::QRotor;
use pthesis::vertices::Rotor;
use pthesis::vertices::VertexFormat;
use pthesis::vertices::attr_define;
use pthesis::vertices::attributes_of;
use pthesis::vertices::layout_size;
use pthesis::vertices::parse_format;
use pthesis::vertices::record_byte_size;
use pthesis::vertices::scalar_count;

#[test]
fn test_imvec2_memory_layout() {
    assert_eq!(mem::size_of::<ImVec2>(), mem::size_of::<[f32; 2]>());
    assert_eq!(mem::align_of::<ImVec2>(), mem::align_of::<[f32; 2]>());
    let test = ImVec2::new(1.0f32.to_bits(), 2.0f32.to_bits());
    assert_eq!(test.x, 1.0f32.to_bits());
    assert_eq!(test.y, 2.0f32.to_bits());
}

#[test]
fn test_imvec4_memory_layout() {
    assert_eq!(mem::size_of::<ImVec4>(), mem::size_of::<[f32; 4]>());
    assert_eq!(mem::align_of::<ImVec4>(), mem::align_of::<[f32; 4]>());
    let test = ImVec4::new(
        1.0f32.to_bits(),
        2.0f32.to_bits(),
        3.0f32.to_bits(),
        4.0f32.to_bits(),
    );
    assert_eq!(test.x, 1.0f32.to_bits());
    assert_eq!(test.y, 2.0f32.to_bits());
    assert_eq!(test.z, 3.0f32.to_bits());
    assert_eq!(test.w, 4.0f32.to_bits());
}

#[test]
fn imvec_zero_is_float_zero() {
    let v2 = ImVec2::zero();
    assert_eq!(f32::from_bits(v2.x), 0.0);
    assert_eq!(f32::from_bits(v2.y), 0.0);
    let v4 = ImVec4::zero();
    assert_eq!(f32::from_bits(v4.x), 0.0);
    assert_eq!(f32::from_bits(v4.w), 0.0);
}

fn all_formats() -> Vec<VertexFormat> {
    vec![
        VertexFormat::All,
        VertexFormat::Matrix,
        VertexFormat::NormTang,
        VertexFormat::Rotor,
        VertexFormat::OuterRotor,
        VertexFormat::QRotor,
        VertexFormat::Motor,
        VertexFormat::OuterMotor,
        VertexFormat::CayleyMotor,
        VertexFormat::CayleyRotor,
    ]
}

#[test]
fn record_size_equals_layout_size_for_every_format() {
    for f in all_formats() {
        let layout = attributes_of(f);
        assert_eq!(record_byte_size(f), layout_size(&layout));
        assert_eq!(record_byte_size(f), 4 * scalar_count(f));
    }
}

#[test]
fn record_byte_sizes_are_exact() {
    assert_eq!(record_byte_size(VertexFormat::All), 188);
    assert_eq!(record_byte_size(VertexFormat::Matrix), 56);
    assert_eq!(record_byte_size(VertexFormat::NormTang), 44);
    assert_eq!(record_byte_size(VertexFormat::Rotor), 36);
    assert_eq!(record_byte_size(VertexFormat::OuterRotor), 32);
    assert_eq!(record_byte_size(VertexFormat::QRotor), 32);
    assert_eq!(record_byte_size(VertexFormat::Motor), 52);
    assert_eq!(record_byte_size(VertexFormat::OuterMotor), 44);
    assert_eq!(record_byte_size(VertexFormat::CayleyMotor), 44);
    assert_eq!(record_byte_size(VertexFormat::CayleyRotor), 32);
}

#[test]
fn packed_records_match_their_layouts() {
    let p3 = pthesis::vertices::Vec3Bits { x: 1, y: 2, z: 3 };
    let p2 = pthesis::vertices::Vec2Bits { x: 4, y: 5 };
    let p4 = pthesis::vertices::Vec4Bits { x: 6, y: 7, z: 8, w: 9 };
    let motor = MotorBits { first: p4, second: p4 };
    let motor_log = MotorLogBits { first: p3, second: p3 };

    let v = PosUVNormTang { position: p3, uv: p2, normal: p3, tangent: p3 };
    assert_eq!(v.pack().len() * 4, record_byte_size(VertexFormat::NormTang));
    assert_eq!(v.pack(), vec![1, 2, 3, 4, 5, 1, 2, 3, 1, 2, 3]);

    let m = Matrix { position: p3, uv: p2, normal: p3, tangent: p3, bitangent: p3 };
    assert_eq!(m.pack().len() * 4, record_byte_size(VertexFormat::Matrix));

    let r = Rotor { position: p3, uv: p2, rotor: p4 };
    assert_eq!(r.pack(), vec![1, 2, 3, 4, 5, 6, 7, 8, 9]);

    let mo = Motor { position: p3, uv: p2, motor };
    assert_eq!(mo.pack().len() * 4, record_byte_size(VertexFormat::Motor));

    let q = QRotor { position: p3, uv: p2, outer_rotor: p3 };
    assert_eq!(q.pack().len() * 4, record_byte_size(VertexFormat::QRotor));

    let cr = CayleyRotor { position: p3, uv: p2, cayley_rotor: p3 };
    assert_eq!(cr.pack().len() * 4, record_byte_size(VertexFormat::CayleyRotor));

    let or = OuterRotor { position: p3, uv: p2, outer_rotor: p3 };
    assert_eq!(or.pack().len() * 4, record_byte_size(VertexFormat::OuterRotor));

    let cm = CayleyMotor { position: p3, uv: p2, cayley_motor: motor_log };
    assert_eq!(cm.pack().len() * 4, record_byte_size(VertexFormat::CayleyMotor));

    let om = OuterMotor { position: p3, uv: p2, outer_motor: motor_log };
    assert_eq!(om.pack().len() * 4, record_byte_size(VertexFormat::OuterMotor));

    let a = All {
        position: p3,
        uv: p2,
        normal: p3,
        tangent: p3,
        bitangent: p3,
        rotor: p4,
        motor,
        outer_log_motor: motor_log,
        outer_log_rotor: p3,
        qtang: p3,
        cayley_motor: motor_log,
        cayley_rotor: p3,
    };
    assert_eq!(a.pack().len(), 47);
    assert_eq!(a.pack().len() * 4, record_byte_size(VertexFormat::All));

    let pn = PosNorm { position: p3, normal: p3 };
    assert_eq!(pn.pack().len() * 4, layout_size(&PosNorm::attributes()));

    let pc = PosUVCol { position: p2, uv: p2, color: p4 };
    assert_eq!(pc.pack().len() * 4, layout_size(&PosUVCol::attributes()));
}

#[test]
fn layouts_are_the_declared_slots() {
    assert_eq!(
        Rotor::attributes(),
        vec![GlslDType::Vec3, GlslDType::Vec2, GlslDType::Vec4]
    );
    assert_eq!(All::attributes().len(), 15);
    assert_eq!(GlslDType::Vec2.byte_size(), 8);
    assert_eq!(GlslDType::Vec3.byte_size(), 12);
    assert_eq!(GlslDType::Vec4.byte_size(), 16);
}

#[test]
fn format_lookup_knows_the_closed_set() {
    assert_eq!(parse_format("all"), Some(VertexFormat::All));
    assert_eq!(parse_format("matrix"), Some(VertexFormat::Matrix));
    assert_eq!(parse_format("normtang"), Some(VertexFormat::NormTang));
    assert_eq!(parse_format("rotor"), Some(VertexFormat::Rotor));
    assert_eq!(parse_format("outerrotor"), Some(VertexFormat::OuterRotor));
    assert_eq!(parse_format("qrotor"), Some(VertexFormat::QRotor));
    assert_eq!(parse_format("motor"), Some(VertexFormat::Motor));
    assert_eq!(parse_format("outermotor"), Some(VertexFormat::OuterMotor));
    assert_eq!(parse_format("cayleymotor"), Some(VertexFormat::CayleyMotor));
    assert_eq!(parse_format("cayleyrotor"), Some(VertexFormat::CayleyRotor));
    assert_eq!(parse_format("nonesuch"), None);
    assert_eq!(parse_format(""), None);
    assert_eq!(parse_format("ALL"), None);
}

#[test]
fn attr_defines_match_the_shader_sources() {
    assert_eq!(attr_define(VertexFormat::All), "ALL");
    assert_eq!(attr_define(VertexFormat::Matrix), "MATRIX_ATTRIBUTES");
    assert_eq!(attr_define(VertexFormat::NormTang), "NORMTANG_ATTRIBUTES");
    assert_eq!(attr_define(VertexFormat::Rotor), "ROTOR_ATTRIBUTES");
    assert_eq!(attr_define(VertexFormat::OuterRotor), "OUTER_ROTOR_ATTRIBUTES");
    assert_eq!(attr_define(VertexFormat::QRotor), "QROTOR_ATTRIBUTES");
    assert_eq!(attr_define(VertexFormat::Motor), "MOTOR_ATTRIBUTES");
    assert_eq!(attr_define(VertexFormat::OuterMotor), "OUTER_MOTOR_ATTRIBUTES");
    assert_eq!(attr_define(VertexFormat::CayleyMotor), "CAYLEY_MOTOR_ATTRIBUTES");
    assert_eq!(attr_define(VertexFormat::CayleyRotor), "CAYLEY_ROTOR_ATTRIBUTES");
}
