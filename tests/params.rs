use gurobi::error::Error;
use gurobi::param::{
    family_of, finish_get, from_raw, new_buffer, prepare_get, prepare_set, to_raw, ParamFamily,
    ParamValue, RawValue, MAX_STRLEN,
};

// What a native store that keeps what it was handed gives back to a getter.
fn stored(raw: &RawValue, buf: RawValue) -> RawValue {
    match (raw, buf) {
        (RawValue::Str(b), RawValue::Str(mut out)) => {
            out[..b.len()].copy_from_slice(b);
            RawValue::Str(out)
        }
        (r, _) => r.clone(),
    }
}

#[test]
fn iis_method_set_then_get_reads_one() {
    let set = prepare_set("IISMethod", &ParamValue::Int(1)).unwrap();
    assert_eq!(set.name, b"IISMethod\0".to_vec());
    assert_eq!(set.value, RawValue::Int(1));
    let get = prepare_get("IISMethod", ParamFamily::Int).unwrap();
    let buf = stored(&set.value, get.buf);
    assert_eq!(finish_get(0, None, &buf), Ok(ParamValue::Int(1)));
}

#[test]
fn round_trip_in_each_family() {
    let values = vec![
        ParamValue::Int(-7),
        ParamValue::Double(1.5f64.to_bits()),
        ParamValue::Str("nodes/dir".to_string()),
        ParamValue::Str(String::new()),
    ];
    for v in values {
        let set = prepare_set("Param", &v).unwrap();
        let get = prepare_get("Param", family_of(&v)).unwrap();
        let buf = stored(&set.value, get.buf);
        assert_eq!(finish_get(0, None, &buf), Ok(v));
    }
}

#[test]
fn double_value_keeps_bits() {
    let v = ParamValue::Double(1e-6f64.to_bits());
    assert_eq!(to_raw(&v), Ok(RawValue::Double(1e-6f64.to_bits())));
    assert_eq!(from_raw(&RawValue::Double(0.25f64.to_bits())), ParamValue::Double(0.25f64.to_bits()));
}

#[test]
fn fresh_buffers_are_zeroed() {
    assert_eq!(new_buffer(ParamFamily::Int), RawValue::Int(0));
    assert_eq!(new_buffer(ParamFamily::Double), RawValue::Double(0));
    assert_eq!(new_buffer(ParamFamily::Str), RawValue::Str(vec![0u8; MAX_STRLEN]));
    assert_eq!(MAX_STRLEN, 512);
}

#[test]
fn string_value_is_terminated() {
    assert_eq!(
        to_raw(&ParamValue::Str("pool".to_string())),
        Ok(RawValue::Str(b"pool\0".to_vec()))
    );
}

#[test]
fn string_value_with_nul_is_refused() {
    assert_eq!(to_raw(&ParamValue::Str("a\0b".to_string())), Err(Error::NulError(1)));
    assert_eq!(
        prepare_set("WorkerPassword", &ParamValue::Str("\0".to_string())).err(),
        Some(Error::NulError(0))
    );
}

#[test]
fn name_with_nul_is_refused_first() {
    assert_eq!(
        prepare_set("Bad\0Name", &ParamValue::Str("x\0".to_string())).err(),
        Some(Error::NulError(3))
    );
    assert_eq!(prepare_get("\0", ParamFamily::Int).err(), Some(Error::NulError(0)));
}

#[test]
fn failed_getter_reports_api_error() {
    let r = finish_get(10007, Some("Unknown parameter 'Foo'".to_string()), &RawValue::Int(3));
    assert_eq!(r, Err(Error::FromAPI("Unknown parameter 'Foo'".to_string(), 10007)));
}

#[test]
fn string_getter_reads_up_to_terminator() {
    let mut buf = vec![0u8; MAX_STRLEN];
    buf[..5].copy_from_slice(b"a.log");
    assert_eq!(finish_get(0, None, &RawValue::Str(buf)), Ok(ParamValue::Str("a.log".to_string())));
}

#[test]
fn family_of_each_value() {
    assert_eq!(family_of(&ParamValue::Int(0)), ParamFamily::Int);
    assert_eq!(family_of(&ParamValue::Double(0)), ParamFamily::Double);
    assert_eq!(family_of(&ParamValue::Str(String::new())), ParamFamily::Str);
}
