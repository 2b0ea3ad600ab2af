use preferences_store::codec::encode_preferences;
use preferences_store::record::Preferences;
use serde::ser::{Serialize, SerializeStruct, Serializer};

/// The record as a serde struct of three fields, written out by hand.
struct Fields<'a>(&'a Preferences);

impl<'a> Serialize for Fields<'a> {
    fn serialize<S: Serializer>(&self, serializer: S) -> Result<S::Ok, S::Error> {
        let mut fields = serializer.serialize_struct("Preferences", 3)?;
        fields.serialize_field("model", &self.0.model)?;
        fields.serialize_field("prompt", &self.0.prompt)?;
        fields.serialize_field("apiKey", &self.0.api_key)?;
        fields.end()
    }
}

fn samples() -> Vec<Preferences> {
    let mut every = String::new();
    for code in 0u32..0x3000 {
        if let Some(c) = char::from_u32(code) {
            every.push(c);
        }
    }
    every.push('\u{1f600}');
    every.push('\u{10ffff}');
    vec![
        Preferences::new("gpt-4".to_string(), "You are a helpful assistant.".to_string(), "sk-...".to_string()),
        Preferences::new(String::new(), String::new(), String::new()),
        Preferences::new("\"\\/".to_string(), "\u{08}\u{0c}\n\r\t".to_string(), "\u{00}\u{1f}\u{7f}".to_string()),
        Preferences::new(every.clone(), "x".to_string(), every),
    ]
}

#[test]
fn encode_is_the_pretty_json_of_a_three_field_struct() {
    for preferences in samples() {
        let expected = serde_json::to_string_pretty(&Fields(&preferences)).unwrap();
        assert_eq!(encode_preferences(&preferences).unwrap(), expected);
    }
}
