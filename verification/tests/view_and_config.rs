use monika_cli::config::validate_api_key;
use monika_cli::config::ConfigError;
use monika_cli::model::Model;
use monika_cli::model::API_KEY_LEN;
use monika_cli::view::panel_text;
use monika_cli::view::view;

fn model(counter: i32, key: [u8; API_KEY_LEN]) -> Model {
    Model {
        counter,
        ..Model::new(key)
    }
}

#[test]
fn panel_text_matches_std_formatting() {
    let mut key = [0u8; API_KEY_LEN];
    for (i, b) in key.iter_mut().enumerate() {
        *b = (i as u8) * 8 + 3;
    }
    for counter in [0, 1, -1, 9, 10, -10, 42, 1000, -1000, i32::MAX, i32::MIN] {
        let expected = format!("Counter: {}, API_KEY: {:?}", counter, key);
        assert_eq!(panel_text(counter, &key), expected);
    }
}

#[test]
fn view_describes_two_equal_bordered_panels() {
    let m = model(7, [9u8; API_KEY_LEN]);
    let layout = view(&m);
    assert!(layout.vertical);
    assert_eq!(layout.margin, 1);
    assert_eq!(layout.panels.len(), 2);
    assert_eq!(layout.panels[0].title, "Block 0");
    assert_eq!(layout.panels[1].title, "Block 1");
    let expected = format!("Counter: {}, API_KEY: {:?}", m.counter, m.api_key);
    for panel in &layout.panels {
        assert!(panel.bordered);
        assert_eq!(panel.height_percent, 50);
        assert_eq!(panel.text, expected);
    }
}

#[test]
fn view_of_negative_counter() {
    let m = model(-123, [0u8; API_KEY_LEN]);
    let layout = view(&m);
    let expected = format!("Counter: {}, API_KEY: {:?}", m.counter, m.api_key);
    assert_eq!(layout.panels[0].text, expected);
}

#[test]
fn exact_32_bytes_are_accepted() {
    let bytes: Vec<u8> = (0..32u8).collect();
    let key = validate_api_key(&bytes).unwrap();
    assert_eq!(&key[..], &bytes[..]);
}

#[test]
fn short_key_is_rejected_with_lengths() {
    let bytes = vec![1u8; 31];
    let err = validate_api_key(&bytes).unwrap_err();
    assert_eq!(
        err,
        ConfigError::WrongLength {
            expected: 32,
            found: 31,
        }
    );
}

#[test]
fn long_and_empty_keys_are_rejected() {
    let bytes = vec![1u8; 33];
    assert_eq!(
        validate_api_key(&bytes),
        Err(ConfigError::WrongLength {
            expected: 32,
            found: 33,
        })
    );
    assert_eq!(
        validate_api_key(&Vec::new()),
        Err(ConfigError::WrongLength {
            expected: 32,
            found: 0,
        })
    );
}
