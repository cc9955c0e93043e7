use guessing_game::records::{wield_phrase, User};
use serde_json::Value;

const DATA: &str = r#"
{
    "name": "Conan the Barbarian",
    "age": 33,
    "swords": [
        "Vengeance of Crom",
        "Bloodstorm"
    ]
}"#;

#[test]
fn untyped_sample_names_first_sword() {
    let v: Value = serde_json::from_str(DATA).unwrap();
    let name = v["name"].as_str().unwrap();
    let sword = v["swords"][0].as_str().unwrap();
    assert_eq!(name, "Conan the Barbarian");
    assert_eq!(sword, "Vengeance of Crom");
    assert_eq!(
        wield_phrase(name, sword),
        "Conan the Barbarian wields his sword, Vengeance of Crom"
    );
}

#[test]
fn user_read_from_json_body() {
    let v: Value = serde_json::from_str(r#"{"id":"abcd","loc":"mars"}"#).unwrap();
    let u = User::new(
        v["id"].as_str().unwrap().to_string(),
        v["loc"].as_str().unwrap().to_string(),
    );
    assert_eq!(&u.id, "abcd");
    assert_eq!(&u.loc, "mars");
}

#[test]
fn json_round_trip_keeps_name() {
    let mut m = serde_json::Map::new();
    m.insert("name".to_string(), Value::String("Conan the Pirate".to_string()));
    m.insert("age".to_string(), Value::from(33u8));
    m.insert(
        "swords".to_string(),
        Value::Array(vec![Value::String("Lightning Shard".to_string())]),
    );
    let text = serde_json::to_string(&Value::Object(m)).unwrap();
    let back: Value = serde_json::from_str(&text).unwrap();
    assert_eq!(back["name"].as_str().unwrap(), "Conan the Pirate");
}

#[test]
fn wield_phrase_joins_name_and_sword() {
    assert_eq!(wield_phrase("Red Sonja", "Kalinda"), "Red Sonja wields his sword, Kalinda");
    assert_eq!(wield_phrase("", ""), " wields his sword, ");
}
