use viewport_lib_particles::{Expr, ExprHandle, Module};

fn lit(m: &mut Module, s: &str) -> ExprHandle {
    m.lit(s.to_string())
}

#[test]
fn builder_hands_out_sequential_handles() {
    let mut m = Module::new();
    assert!(m.is_empty());
    let a = lit(&mut m, "1.0");
    let b = m.attr("position".to_string());
    let c = m.add(a, b);
    assert_eq!(a, ExprHandle(0));
    assert_eq!(b, ExprHandle(1));
    assert_eq!(c, ExprHandle(2));
    assert_eq!(m.len(), 3);
    assert!(!m.is_empty());
    assert!(matches!(m.get(c), Expr::Add(ExprHandle(0), ExprHandle(1))));
}

#[test]
fn reachable_lists_each_node_once_in_ascending_order() {
    let mut m = Module::new();
    let a = lit(&mut m, "1.0"); // 0
    let _unused = lit(&mut m, "9.0"); // 1
    let b = m.rand(); // 2
    let s = m.add(a, b); // 3
    let t = m.mul(s, s); // 4 (shared operand)
    let _dead = m.sin(a); // 5
    let u = m.clamp(t, a, b); // 6
    assert_eq!(m.reachable(&[u]), vec![0, 2, 3, 4, 6]);
    assert_eq!(m.reachable(&[u, u, s]), vec![0, 2, 3, 4, 6]);
    assert_eq!(m.reachable(&[b]), vec![2]);
}

#[test]
fn reachable_from_no_roots_is_empty() {
    let mut m = Module::new();
    let a = m.rand_unit();
    let _ = m.normalize(a);
    assert_eq!(m.reachable(&[]), Vec::<u32>::new());
}

#[test]
fn reachable_follows_every_operand_kind() {
    let mut m = Module::new();
    let p = m.attr("position".to_string()); // 0
    let n = m.noise(p); // 1
    let c = m.curl_noise(p); // 2
    let l = m.length(c); // 3
    let mx = m.max(n, l); // 4
    let mn = m.min(mx, l); // 5
    let d = m.div(mn, n); // 6
    let sp = m.splat3(d); // 7
    let cr = m.cross(sp, c); // 8
    let co = m.cos(d); // 9
    let sb = m.sub(co, d); // 10
    let pr = m.property("wind".to_string()); // 11
    assert_eq!(m.reachable(&[cr]), vec![0, 1, 2, 3, 4, 5, 6, 7, 8]);
    assert_eq!(m.reachable(&[sb, pr]), vec![0, 1, 2, 3, 4, 5, 6, 9, 10, 11]);
}

#[test]
fn vector_literal_keeps_its_components() {
    let mut m = Module::new();
    let v = m.lit_vec3("1.0".to_string(), "2.5".to_string(), "-3.0".to_string());
    match m.get(v) {
        Expr::LitVec3(x, y, z) => {
            assert_eq!(x, "1.0");
            assert_eq!(y, "2.5");
            assert_eq!(z, "-3.0");
        }
        _ => panic!("expected a vector literal"),
    }
}

#[test]
fn operands_in_bounds_flags_dangling_handles() {
    let mut m = Module::new();
    assert!(m.operands_in_bounds());
    let a = lit(&mut m, "1.0");
    let b = m.rand();
    m.add(a, b);
    assert!(m.operands_in_bounds());
    m.mul(ExprHandle(7), a);
    assert!(!m.operands_in_bounds());
}
