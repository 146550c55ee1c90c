use triton_rs::Model;

const COUNTERS_TAG: u64 = 1;
const OTHER_TAG: u64 = 2;

fn model() -> Model<Vec<u64>> {
    Model::new(
        "demo".to_string(),
        3,
        "/repo/models".to_string(),
        "{\"max_batch_size\": 8}".to_string(),
    )
}

#[test]
fn data_with_same_tag_returns_identical_value() {
    let mut m = model();
    m.set_data(COUNTERS_TAG, vec![10, 20, 30]).unwrap();
    let read = m.data(COUNTERS_TAG).unwrap().expect("state was attached");
    assert_eq!(read, &vec![10, 20, 30]);
}

#[test]
fn data_with_mismatched_tag_is_a_type_mismatch() {
    let mut m = model();
    m.set_data(COUNTERS_TAG, vec![1]).unwrap();
    let err = m.data(OTHER_TAG).err().expect("mismatched tag must fail");
    assert_eq!(err.message(), "Model state type mismatch");
}

#[test]
fn data_on_empty_slot_is_none() {
    let m = model();
    assert!(m.data(COUNTERS_TAG).unwrap().is_none());
}

#[test]
fn drop_data_returns_the_value_exactly_once() {
    let mut m = model();
    m.set_data(COUNTERS_TAG, vec![7, 8]).unwrap();
    let first = m.drop_data().unwrap().expect("first detach returns the state");
    assert_eq!(first.tag, COUNTERS_TAG);
    assert_eq!(first.value, vec![7, 8]);
    let second = m.drop_data().unwrap();
    assert!(second.is_none());
}

#[test]
fn set_data_over_existing_state_replaces_it() {
    let mut m = model();
    m.set_data(COUNTERS_TAG, vec![1]).unwrap();
    m.set_data(OTHER_TAG, vec![2]).unwrap();
    let read = m.data(OTHER_TAG).unwrap().unwrap();
    assert_eq!(read, &vec![2]);
    assert!(m.data(COUNTERS_TAG).is_err());
    let detached = m.drop_data().unwrap().unwrap();
    assert_eq!(detached.value, vec![2]);
    assert!(m.drop_data().unwrap().is_none());
}

#[test]
fn model_describes_itself() {
    let m = model();
    assert_eq!(m.name().unwrap(), "demo");
    assert_eq!(m.version().unwrap(), 3);
    assert_eq!(m.location().unwrap(), "/repo/models");
}

#[test]
fn path_composes_location_version_and_filename() {
    let m = model();
    assert_eq!(m.path("weights.bin").unwrap(), "/repo/models/3/weights.bin");
}

#[test]
fn config_exposes_the_json_text() {
    let m = model();
    let config = m.config().unwrap();
    assert_eq!(config.as_str().unwrap(), "{\"max_batch_size\": 8}");
}

#[test]
fn config_as_json_parses_valid_text() {
    let m = model();
    let config = m.config().unwrap();
    let value = config.as_json().unwrap();
    assert_eq!(value["max_batch_size"], serde_json::Value::from(8));
}

#[test]
fn config_as_json_rejects_malformed_text() {
    let m: Model<()> = Model::new(
        "demo".to_string(),
        1,
        "/repo".to_string(),
        "{not json".to_string(),
    );
    let config = m.config().unwrap();
    assert!(config.as_json().is_err());
}
