use gym_client::error::GymError;
use gym_client::json::JsonValue;
use gym_client::space::{Draw, Space};

fn text(s: &str) -> JsonValue {
    JsonValue::Text { s: s.to_string() }
}

fn uintnum(u: u64) -> JsonValue {
    JsonValue::Number {
        as_uint: Some(u),
        bits: (u as f64).to_bits(),
    }
}

fn realnum(x: f64) -> JsonValue {
    JsonValue::Number {
        as_uint: None,
        bits: x.to_bits(),
    }
}

fn obj(entries: Vec<(&str, JsonValue)>) -> JsonValue {
    JsonValue::Object {
        entries: entries
            .into_iter()
            .map(|(k, v)| (k.to_string(), v))
            .collect(),
    }
}

fn list(items: Vec<JsonValue>) -> JsonValue {
    JsonValue::List { items }
}

fn box_desc(shape: Vec<u64>, high: Vec<f64>, low: Vec<f64>) -> JsonValue {
    obj(vec![
        ("name", text("Box")),
        ("shape", list(shape.into_iter().map(uintnum).collect())),
        ("high", list(high.into_iter().map(realnum).collect())),
        ("low", list(low.into_iter().map(realnum).collect())),
    ])
}

#[test]
fn parse_discrete() {
    let v = obj(vec![("name", text("Discrete")), ("n", uintnum(4))]);
    match Space::from_json(&v) {
        Ok(Space::DISCRETE { n }) => assert_eq!(n, 4),
        other => panic!("expected a discrete space, got {:?}", other),
    }
}

#[test]
fn parse_discrete_missing_n() {
    let v = obj(vec![("name", text("Discrete"))]);
    let r = Space::from_json(&v);
    assert_eq!(
        r.unwrap_err(),
        GymError::Schema {
            detail: "n".to_string()
        }
    );
}

#[test]
fn parse_discrete_real_n_rejected() {
    let v = obj(vec![("name", text("Discrete")), ("n", realnum(4.0))]);
    let r = Space::from_json(&v);
    assert_eq!(
        r.unwrap_err(),
        GymError::Schema {
            detail: "n".to_string()
        }
    );
}

#[test]
fn parse_box_exact() {
    let v = box_desc(vec![2], vec![1.0, 1.0], vec![0.0, -1.0]);
    match Space::from_json(&v) {
        Ok(Space::BOX { shape, high, low }) => {
            assert_eq!(shape, vec![2]);
            assert_eq!(high, vec![(1.0f64).to_bits(), (1.0f64).to_bits()]);
            assert_eq!(low, vec![(0.0f64).to_bits(), (-1.0f64).to_bits()]);
        }
        other => panic!("expected a box space, got {:?}", other),
    }
}

#[test]
fn parse_box_integer_bounds_coerced() {
    // Bounds that arrive as wire integers still carry their binary64 bits.
    let v = obj(vec![
        ("name", text("Box")),
        ("shape", list(vec![uintnum(1)])),
        ("high", list(vec![uintnum(3)])),
        ("low", list(vec![uintnum(0)])),
    ]);
    match Space::from_json(&v) {
        Ok(Space::BOX { shape, high, low }) => {
            assert_eq!(shape, vec![1]);
            assert_eq!(high, vec![(3.0f64).to_bits()]);
            assert_eq!(low, vec![(0.0f64).to_bits()]);
        }
        other => panic!("expected a box space, got {:?}", other),
    }
}

#[test]
fn parse_box_missing_low() {
    let v = obj(vec![
        ("name", text("Box")),
        ("shape", list(vec![uintnum(2)])),
        ("high", list(vec![realnum(1.0), realnum(1.0)])),
    ]);
    let r = Space::from_json(&v);
    assert_eq!(
        r.unwrap_err(),
        GymError::Schema {
            detail: "low".to_string()
        }
    );
}

#[test]
fn parse_box_inconsistent_lengths() {
    let v = box_desc(vec![3], vec![1.0, 1.0], vec![0.0, 0.0]);
    let r = Space::from_json(&v);
    assert_eq!(
        r.unwrap_err(),
        GymError::Schema {
            detail: "shape".to_string()
        }
    );
}

#[test]
fn parse_tuple_unsupported() {
    let child = obj(vec![("name", text("Discrete")), ("n", uintnum(2))]);
    let v = obj(vec![("name", text("Tuple")), ("spaces", list(vec![child]))]);
    assert_eq!(Space::from_json(&v).unwrap_err(), GymError::UnsupportedSpace);
}

#[test]
fn parse_tuple_unsupported_any_payload() {
    // Even a nonsensical payload is refused with the same error.
    let v = obj(vec![("name", text("Tuple")), ("spaces", text("garbage"))]);
    assert_eq!(Space::from_json(&v).unwrap_err(), GymError::UnsupportedSpace);
}

#[test]
fn parse_unrecognized_name() {
    let v = obj(vec![("name", text("MultiBinary")), ("n", uintnum(4))]);
    assert_eq!(
        Space::from_json(&v).unwrap_err(),
        GymError::Schema {
            detail: "MultiBinary".to_string()
        }
    );
}

#[test]
fn parse_missing_name() {
    let v = obj(vec![("n", uintnum(4))]);
    assert_eq!(
        Space::from_json(&v).unwrap_err(),
        GymError::Schema {
            detail: "name".to_string()
        }
    );
}

#[test]
fn sample_discrete_bounds_and_coverage() {
    let space = Space::DISCRETE { n: 8 };
    let mut seen = [false; 8];
    for _ in 0..10_000 {
        let draws = space.sample().unwrap();
        assert_eq!(draws.len(), 1);
        match draws[0] {
            Draw::IntVal { v } => {
                assert!(v < 8);
                seen[v as usize] = true;
            }
            other => panic!("expected an integer draw, got {:?}", other),
        }
    }
    assert!(seen.iter().all(|&s| s), "every value in range should appear");
}

#[test]
fn sample_discrete_empty_domain_fails() {
    let space = Space::DISCRETE { n: 0 };
    assert!(matches!(
        space.sample(),
        Err(GymError::Schema { .. })
    ));
}

#[test]
fn sample_box_bounds() {
    let space = Space::BOX {
        shape: vec![2],
        high: vec![(1.0f64).to_bits(), (1.0f64).to_bits()],
        low: vec![(0.0f64).to_bits(), (-1.0f64).to_bits()],
    };
    for _ in 0..100 {
        let draws = space.sample().unwrap();
        assert_eq!(draws.len(), 2);
        let lows = [0.0f64, -1.0f64];
        let highs = [1.0f64, 1.0f64];
        for (i, d) in draws.iter().enumerate() {
            match *d {
                Draw::RealIn { low, high } => {
                    assert_eq!(low, lows[i].to_bits());
                    assert_eq!(high, highs[i].to_bits());
                    // Resolve the pending draw as the host layer does.
                    let x: f64 = rand::random_range(f64::from_bits(low)..f64::from_bits(high));
                    assert!(x >= lows[i] && x < highs[i]);
                }
                other => panic!("expected a pending real draw, got {:?}", other),
            }
        }
    }
}

#[test]
fn sample_box_multi_axis_order() {
    // shape [1, 2]: three flattened scalars, bounds in positional order.
    let space = Space::BOX {
        shape: vec![1, 2],
        high: vec![(1.0f64).to_bits(), (2.0f64).to_bits(), (3.0f64).to_bits()],
        low: vec![(0.0f64).to_bits(), (0.5f64).to_bits(), (2.0f64).to_bits()],
    };
    let draws = space.sample().unwrap();
    assert_eq!(draws.len(), 3);
    let expected_low = [0.0f64, 0.5, 2.0];
    let expected_high = [1.0f64, 2.0, 3.0];
    for (i, d) in draws.iter().enumerate() {
        match *d {
            Draw::RealIn { low, high } => {
                assert_eq!(low, expected_low[i].to_bits());
                assert_eq!(high, expected_high[i].to_bits());
            }
            other => panic!("expected a pending real draw, got {:?}", other),
        }
    }
}

#[test]
fn sample_ill_formed_box_fails() {
    let space = Space::BOX {
        shape: vec![3],
        high: vec![(1.0f64).to_bits()],
        low: vec![(0.0f64).to_bits()],
    };
    assert!(matches!(space.sample(), Err(GymError::Schema { .. })));
}

#[test]
fn sample_tuple_concatenates() {
    let space = Space::TUPLE {
        spaces: vec![
            Box::new(Space::DISCRETE { n: 3 }),
            Box::new(Space::BOX {
                shape: vec![1],
                high: vec![(1.0f64).to_bits()],
                low: vec![(0.0f64).to_bits()],
            }),
        ],
    };
    let draws = space.sample().unwrap();
    assert_eq!(draws.len(), 2);
    assert!(matches!(draws[0], Draw::IntVal { v } if v < 3));
    assert!(matches!(
        draws[1],
        Draw::RealIn { low, high }
            if low == (0.0f64).to_bits() && high == (1.0f64).to_bits()
    ));
}

#[test]
fn sample_box_one_point_domain_stays_pending() {
    // Equal bounds denote the one-point domain: the pending draw carries
    // them unchanged, and the host resolves it to the boundary value.
    let b = (0.5f64).to_bits();
    let space = Space::BOX {
        shape: vec![1],
        high: vec![b],
        low: vec![b],
    };
    let draws = space.sample().unwrap();
    assert_eq!(draws.len(), 1);
    match draws[0] {
        Draw::RealIn { low, high } => {
            assert_eq!(low, b);
            assert_eq!(high, b);
        }
        other => panic!("expected a pending real draw, got {:?}", other),
    }
}

#[test]
fn sample_nested_tuple_in_order() {
    let inner = Space::TUPLE {
        spaces: vec![
            Box::new(Space::DISCRETE { n: 2 }),
            Box::new(Space::DISCRETE { n: 1 }),
        ],
    };
    let space = Space::TUPLE {
        spaces: vec![
            Box::new(Space::BOX {
                shape: vec![1],
                high: vec![(4.0f64).to_bits()],
                low: vec![(3.0f64).to_bits()],
            }),
            Box::new(inner),
        ],
    };
    let draws = space.sample().unwrap();
    assert_eq!(draws.len(), 3);
    assert!(matches!(draws[0], Draw::RealIn { .. }));
    assert!(matches!(draws[1], Draw::IntVal { v } if v < 2));
    assert!(matches!(draws[2], Draw::IntVal { v: 0 }));
}

#[test]
fn duplicate_space_is_equal() {
    let space = Space::TUPLE {
        spaces: vec![
            Box::new(Space::DISCRETE { n: 5 }),
            Box::new(Space::BOX {
                shape: vec![1],
                high: vec![(2.0f64).to_bits()],
                low: vec![(0.0f64).to_bits()],
            }),
        ],
    };
    let copy = space.duplicate();
    match (&space, &copy) {
        (Space::TUPLE { spaces: a }, Space::TUPLE { spaces: b }) => {
            assert_eq!(a.len(), b.len());
            assert!(matches!(*b[0], Space::DISCRETE { n: 5 }));
            match (&*a[1], &*b[1]) {
                (
                    Space::BOX {
                        shape: s1,
                        high: h1,
                        low: l1,
                    },
                    Space::BOX {
                        shape: s2,
                        high: h2,
                        low: l2,
                    },
                ) => {
                    assert_eq!(s1, s2);
                    assert_eq!(h1, h2);
                    assert_eq!(l1, l2);
                }
                other => panic!("expected two box spaces, got {:?}", other),
            }
        }
        other => panic!("expected two tuple spaces, got {:?}", other),
    }
}

#[test]
fn find_first_entry_wins() {
    let v = obj(vec![("k", uintnum(1)), ("k", uintnum(2))]);
    match v.find("k") {
        Some(JsonValue::Number { as_uint, .. }) => assert_eq!(*as_uint, Some(1)),
        other => panic!("expected the first number, got {:?}", other),
    }
}
