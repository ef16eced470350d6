use cretonne::types::{
    B1, B16, B32, B32X4, B64, B8, F32, F64, F64X8, I16, I16X4, I32, I32X4, I64, I64X4, I8, VOID,
};

#[test]
fn basic_scalars() {
    assert!(VOID() == VOID().lane_type());
    assert_eq!(0, VOID().bits());
    assert!(B1() == B1().lane_type());
    assert!(B8() == B8().lane_type());
    assert!(B16() == B16().lane_type());
    assert!(B32() == B32().lane_type());
    assert!(B64() == B64().lane_type());
    assert!(I8() == I8().lane_type());
    assert!(I16() == I16().lane_type());
    assert!(I32() == I32().lane_type());
    assert!(I64() == I64().lane_type());
    assert!(F32() == F32().lane_type());
    assert!(F64() == F64().lane_type());

    assert_eq!(VOID().lane_bits(), 0);
    assert_eq!(B1().lane_bits(), 1);
    assert_eq!(B8().lane_bits(), 8);
    assert_eq!(B16().lane_bits(), 16);
    assert_eq!(B32().lane_bits(), 32);
    assert_eq!(B64().lane_bits(), 64);
    assert_eq!(I8().lane_bits(), 8);
    assert_eq!(I16().lane_bits(), 16);
    assert_eq!(I32().lane_bits(), 32);
    assert_eq!(I64().lane_bits(), 64);
    assert_eq!(F32().lane_bits(), 32);
    assert_eq!(F64().lane_bits(), 64);
}

#[test]
fn typevar_functions() {
    assert!(VOID().half_width() == None);
    assert!(B1().half_width() == None);
    assert!(B8().half_width() == None);
    assert!(B16().half_width() == Some(B8()));
    assert!(B32().half_width() == Some(B16()));
    assert!(B64().half_width() == Some(B32()));
    assert!(I8().half_width() == None);
    assert!(I16().half_width() == Some(I8()));
    assert!(I32().half_width() == Some(I16()));
    assert!(I32X4().half_width() == Some(I16X4()));
    assert!(I64().half_width() == Some(I32()));
    assert!(F32().half_width() == None);
    assert!(F64().half_width() == Some(F32()));

    assert!(VOID().double_width() == None);
    assert!(B1().double_width() == None);
    assert!(B8().double_width() == Some(B16()));
    assert!(B16().double_width() == Some(B32()));
    assert!(B32().double_width() == Some(B64()));
    assert!(B64().double_width() == None);
    assert!(I8().double_width() == Some(I16()));
    assert!(I16().double_width() == Some(I32()));
    assert!(I32().double_width() == Some(I64()));
    assert!(I32X4().double_width() == Some(I64X4()));
    assert!(I64().double_width() == None);
    assert!(F32().double_width() == Some(F64()));
    assert!(F64().double_width() == None);
}

#[test]
fn vectors() {
    let big = F64().times(256).unwrap();
    assert_eq!(big.lane_bits(), 64);
    assert_eq!(big.lane_count(), 256);
    assert_eq!(big.bits(), 64 * 256);

    assert_eq!(big.half_vector().unwrap().to_string(), "f64x128");
    assert_eq!(B1().times(2).unwrap().half_vector().unwrap().to_string(), "b1");
    assert!(I32().half_vector() == None);
    assert!(VOID().half_vector() == None);

    // Check that the named vector types match the computed vector types.
    assert!(I32().times(4) == Some(I32X4()));
    assert!(F64().times(8) == Some(F64X8()));
}

#[test]
fn format_scalars() {
    assert_eq!(VOID().to_string(), "void");
    assert_eq!(B1().to_string(), "b1");
    assert_eq!(B8().to_string(), "b8");
    assert_eq!(B16().to_string(), "b16");
    assert_eq!(B32().to_string(), "b32");
    assert_eq!(B64().to_string(), "b64");
    assert_eq!(I8().to_string(), "i8");
    assert_eq!(I16().to_string(), "i16");
    assert_eq!(I32().to_string(), "i32");
    assert_eq!(I64().to_string(), "i64");
    assert_eq!(F32().to_string(), "f32");
    assert_eq!(F64().to_string(), "f64");
}

#[test]
fn format_vectors() {
    assert_eq!(B1().times(8).unwrap().to_string(), "b1x8");
    assert_eq!(B8().times(1).unwrap().to_string(), "b8");
    assert_eq!(B16().times(256).unwrap().to_string(), "b16x256");
    assert_eq!(B32().times(4).unwrap().times(2).unwrap().to_string(), "b32x8");
    assert_eq!(B64().times(8).unwrap().to_string(), "b64x8");
    assert_eq!(I8().times(64).unwrap().to_string(), "i8x64");
    assert_eq!(F64().times(2).unwrap().to_string(), "f64x2");
    assert!(I8().times(3) == None);
    assert!(I8().times(512) == None);
    assert!(VOID().times(4) == None);
}

#[test]
fn as_bool() {
    assert!(I32X4().as_bool() == B32X4());
    assert!(I32().as_bool() == B1());
    assert!(I32X4().as_bool_pedantic() == B32X4());
    assert!(I32().as_bool_pedantic() == B32());
}
