use scribe::config::{expand_home, merged_config, ConfigOverrides, DEFAULT_DURATION,
    DEFAULT_VOLUME_CENTIS};

fn none_overrides() -> ConfigOverrides {
    ConfigOverrides { device: None, duration: None, volume_centis: None }
}

#[test]
fn defaults_fill_everything() {
    let c = merged_config(none_overrides(), none_overrides());
    assert_eq!(c.device, "front:CARD=BRIO");
    assert_eq!(c.duration, DEFAULT_DURATION);
    assert_eq!(c.duration, 3600);
    assert_eq!(c.volume_centis, DEFAULT_VOLUME_CENTIS);
    assert_eq!(c.volume_centis, 200);
}

#[test]
fn file_values_used_when_cli_absent() {
    let file = ConfigOverrides {
        device: Some("hw:2".to_string()),
        duration: Some(60),
        volume_centis: Some(300),
    };
    let c = merged_config(none_overrides(), file);
    assert_eq!(c.device, "hw:2");
    assert_eq!(c.duration, 60);
    assert_eq!(c.volume_centis, 300);
}

#[test]
fn cli_takes_precedence_over_file() {
    let cli = ConfigOverrides {
        device: Some("hw:1".to_string()),
        duration: Some(10),
        volume_centis: Some(150),
    };
    let file = ConfigOverrides {
        device: Some("hw:9".to_string()),
        duration: Some(999),
        volume_centis: Some(50),
    };
    let c = merged_config(cli, file);
    assert_eq!(c.device, "hw:1");
    assert_eq!(c.duration, 10);
    assert_eq!(c.volume_centis, 150);
}

#[test]
fn sources_mix_per_field() {
    let cli = ConfigOverrides { device: None, duration: Some(42), volume_centis: None };
    let file = ConfigOverrides {
        device: Some("plughw:0".to_string()),
        duration: Some(7),
        volume_centis: None,
    };
    let c = merged_config(cli, file);
    assert_eq!(c.device, "plughw:0");
    assert_eq!(c.duration, 42);
    assert_eq!(c.volume_centis, 200);
}

#[test]
fn home_prefix_expansion() {
    assert_eq!(
        expand_home("~/.config/scribe/config.toml", Some("/home/u".to_string())),
        "/home/u/.config/scribe/config.toml"
    );
    assert_eq!(
        expand_home("~/.config/scribe/config.toml", None),
        "~/.config/scribe/config.toml"
    );
    assert_eq!(expand_home("/etc/scribe.toml", Some("/home/u".to_string())), "/etc/scribe.toml");
    assert_eq!(expand_home("a~b", Some("/home/u".to_string())), "a~b");
    assert_eq!(expand_home("", Some("/home/u".to_string())), "");
}

#[test]
fn empty_overrides_leave_every_field_absent() {
    let o = ConfigOverrides::empty();
    assert!(o.device.is_none());
    assert!(o.duration.is_none());
    assert!(o.volume_centis.is_none());
}
