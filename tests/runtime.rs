use wasm2c_bridge::{Runtime, SignatureRegistry, ValueType};

#[test]
fn lifecycle() {
    let mut rt = Runtime::new();
    assert!(!rt.is_initialized());
    rt.init();
    assert!(rt.is_initialized());
    rt.init();
    assert!(rt.is_initialized());
    rt.free();
    assert!(!rt.is_initialized());
}

#[test]
fn registry_interns_shapes() {
    let mut reg = SignatureRegistry::new();
    let a = reg.register(vec![ValueType::I32], vec![ValueType::I64]);
    let b = reg.register(vec![ValueType::I32, ValueType::I32], vec![]);
    let c = reg.register(vec![ValueType::I32], vec![ValueType::I64]);
    let d = reg.register(vec![ValueType::I32], vec![ValueType::F64]);
    assert_eq!(a, 0);
    assert_eq!(b, 1);
    assert_eq!(c, a);
    assert_eq!(d, 2);
    assert_eq!(reg.len(), 3);
    let s = reg.lookup(b).unwrap();
    assert_eq!(s.params, vec![ValueType::I32, ValueType::I32]);
    assert!(s.results.is_empty());
    assert!(reg.lookup(3).is_none());
}
