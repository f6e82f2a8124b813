use ssbh_data_py_derive::mirror::{map_record, map_records, Field, MapError, MirrorPair, Value};

fn names(ns: &[&str]) -> Vec<String> {
    ns.iter().map(|n| n.to_string()).collect()
}

fn point(x: i64, y: i64) -> Vec<Field> {
    vec![
        Field { name: "x".to_string(), value: Value::Int(x) },
        Field { name: "y".to_string(), value: Value::Int(y) },
    ]
}

#[test]
fn point_maps_field_by_field() {
    let pair = MirrorPair { internal: names(&["x", "y"]), exposed: names(&["x", "y"]) };
    assert_eq!(pair.to_exposed(&point(1, 2)), Ok(point(1, 2)));
}

#[test]
fn sequence_of_points_keeps_order() {
    let r = map_records(&names(&["x", "y"]), &vec![point(0, 0), point(1, 1)]).unwrap();
    assert_eq!(r.len(), 2);
    assert_eq!(r[0], point(0, 0));
    assert_eq!(r[1], point(1, 1));
}

#[test]
fn sequence_fails_on_any_element() {
    let bad = vec![Field { name: "x".to_string(), value: Value::Int(3) }];
    let r = map_records(&names(&["x", "y"]), &vec![point(0, 0), bad, point(1, 1)]);
    assert_eq!(r, Err(MapError::ShapeMismatch));
    assert_eq!(map_records(&names(&["x"]), &vec![]), Ok(vec![]));
}

#[test]
fn fields_follow_target_order() {
    let r = map_record(&names(&["y", "x"]), &point(1, 2)).unwrap();
    assert_eq!(
        r,
        vec![
            Field { name: "y".to_string(), value: Value::Int(2) },
            Field { name: "x".to_string(), value: Value::Int(1) },
        ]
    );
}

#[test]
fn absent_stays_absent() {
    let rec = vec![
        Field { name: "id".to_string(), value: Value::Int(7) },
        Field { name: "parent".to_string(), value: Value::Absent },
    ];
    let pair = MirrorPair { internal: names(&["id", "parent"]), exposed: names(&["parent", "id"]) };
    let out = pair.to_exposed(&rec).unwrap();
    assert_eq!(out[0], Field { name: "parent".to_string(), value: Value::Absent });
    assert_eq!(out[1], Field { name: "id".to_string(), value: Value::Int(7) });
}

#[test]
fn wrong_shape_fails_whole() {
    let pair = MirrorPair { internal: names(&["x", "y"]), exposed: names(&["x", "y"]) };
    let missing = vec![Field { name: "x".to_string(), value: Value::Int(1) }];
    assert_eq!(pair.to_exposed(&missing), Err(MapError::ShapeMismatch));
    let renamed = vec![
        Field { name: "x".to_string(), value: Value::Int(1) },
        Field { name: "z".to_string(), value: Value::Int(2) },
    ];
    assert_eq!(pair.to_exposed(&renamed), Err(MapError::ShapeMismatch));
    let mut extra = point(1, 2);
    extra.push(Field { name: "w".to_string(), value: Value::Bool(true) });
    assert_eq!(pair.to_internal(&extra), Err(MapError::ShapeMismatch));
}

#[test]
fn there_and_back_gives_value_again() {
    let pair = MirrorPair {
        internal: names(&["name", "x", "on"]),
        exposed: names(&["on", "name", "x"]),
    };
    let v = vec![
        Field { name: "name".to_string(), value: Value::Text("bone".to_string()) },
        Field { name: "x".to_string(), value: Value::Int(-4) },
        Field { name: "on".to_string(), value: Value::Bool(false) },
    ];
    let exposed = pair.to_exposed(&v).unwrap();
    assert_eq!(exposed[0].name, "on");
    assert_eq!(pair.to_internal(&exposed), Ok(v));
}
