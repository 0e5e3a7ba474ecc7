use raster_to_json::metadata::MetaDoc;
use serde_json::Value;

fn identity_like_transform() -> Value {
    Value::Array(vec![
        Value::from(0.0f64),
        Value::from(1.0f64),
        Value::from(0.0f64),
        Value::from(0.0f64),
        Value::from(0.0f64),
        Value::from(-1.0f64),
    ])
}

#[test]
fn insert_and_get() {
    let mut doc = MetaDoc::new();
    assert_eq!(doc.key_count(), 0);
    doc.insert(String::from("name"), Value::from("scene"));
    doc.insert(String::from("cloudy"), Value::from(false));
    assert_eq!(doc.key_count(), 2);
    assert_eq!(doc.get(&String::from("name")), Some(&Value::from("scene")));
    assert_eq!(doc.get(&String::from("cloudy")), Some(&Value::from(false)));
    assert_eq!(doc.get(&String::from("missing")), None);
}

#[test]
fn insert_overwrites_existing_key() {
    let mut doc = MetaDoc::new();
    doc.insert(String::from("name"), Value::from("old"));
    doc.insert(String::from("name"), Value::from("new"));
    assert_eq!(doc.key_count(), 1);
    assert_eq!(doc.get(&String::from("name")), Some(&Value::from("new")));
}

#[test]
fn merge_sets_dimensions() {
    let mut doc = MetaDoc::new();
    doc.apply_raster_meta(512, 256, String::from("EPSG:4326"), identity_like_transform());
    assert_eq!(doc.get(&String::from("width")), Some(&Value::from(512u64)));
    assert_eq!(doc.get(&String::from("height")), Some(&Value::from(256u64)));
    let width = doc.get(&String::from("width")).unwrap();
    assert_eq!(width.as_u64(), Some(512));
}

#[test]
fn merge_sets_projection_and_transform() {
    let mut doc = MetaDoc::new();
    doc.apply_raster_meta(2, 2, String::from("EPSG:3067"), identity_like_transform());
    assert_eq!(
        doc.get(&String::from("projectionRef")),
        Some(&Value::from(String::from("EPSG:3067")))
    );
    let transform = doc.get(&String::from("affineTransform")).unwrap();
    assert_eq!(transform, &identity_like_transform());
    let coefficients = transform.as_array().unwrap();
    assert_eq!(coefficients.len(), 6);
    for c in coefficients {
        assert!(c.is_number());
    }
}

#[test]
fn merge_preserves_caller_keys() {
    let mut doc = MetaDoc::new();
    doc.insert(String::from("satellite"), Value::from("S2A"));
    doc.insert(String::from("orbit"), Value::from(42u64));
    doc.apply_raster_meta(10, 20, String::new(), identity_like_transform());
    assert_eq!(doc.get(&String::from("satellite")), Some(&Value::from("S2A")));
    assert_eq!(doc.get(&String::from("orbit")), Some(&Value::from(42u64)));
    assert_eq!(doc.key_count(), 6);
}

#[test]
fn merge_overwrites_colliding_caller_keys() {
    let mut doc = MetaDoc::new();
    doc.insert(String::from("width"), Value::from("bogus"));
    doc.insert(String::from("affineTransform"), Value::Null);
    doc.apply_raster_meta(8, 9, String::from("p"), identity_like_transform());
    assert_eq!(doc.get(&String::from("width")), Some(&Value::from(8u64)));
    assert_eq!(doc.get(&String::from("affineTransform")), Some(&identity_like_transform()));
    assert_eq!(doc.key_count(), 4);
}

#[test]
fn empty_projection_kept_as_empty_string() {
    let mut doc = MetaDoc::new();
    doc.apply_raster_meta(1, 1, String::new(), identity_like_transform());
    assert_eq!(doc.get(&String::from("projectionRef")), Some(&Value::from(String::new())));
}

#[test]
fn output_document_has_two_keys() {
    let metadata = Value::from("merged");
    let data = Value::Array(vec![Value::from(10u64), Value::from(30u64)]);
    let out = raster_to_json::metadata::output_document(metadata.clone(), data.clone());
    assert_eq!(out.key_count(), 2);
    assert_eq!(out.get(&String::from("metadata")), Some(&metadata));
    assert_eq!(out.get(&String::from("data")), Some(&data));
}

#[test]
fn entries_walk_whole_document() {
    let mut doc = MetaDoc::new();
    doc.insert(String::from("a"), Value::from(1u64));
    doc.insert(String::from("b"), Value::from(2u64));
    let mut keys = Vec::new();
    for i in 0..doc.entry_count() {
        let e = doc.entry_at(i);
        keys.push(e.key.clone());
    }
    assert_eq!(keys, vec![String::from("a"), String::from("b")]);
    assert_eq!(doc.entry_at(1).value, Value::from(2u64));
}
