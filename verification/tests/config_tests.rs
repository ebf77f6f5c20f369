use pinreq::config::{Config, ConfigError};
use pinreq::matrix::matrix_channel::{MatrixChannelSettings, Session};

fn settings(name: &str) -> MatrixChannelSettings {
    MatrixChannelSettings {
        name: name.to_owned(),
        homeserver: "matrix.org".to_owned(),
        room_alias: "#ipfs-pinreq:matrix.org".to_owned(),
        initial_backlog_size: 100,
        session: None,
    }
}

fn names(list: &[&str]) -> Vec<String> {
    list.iter().map(|n| (*n).to_owned()).collect()
}

#[test]
fn distinct_names_load_in_order() {
    let registry = Config { matrix: vec![settings("roomA"), settings("roomB"), settings("roomC")] }
        .to_map()
        .unwrap();
    assert_eq!(registry.len(), 3);
    assert_eq!(
        registry.resolve(None),
        Ok(vec![settings("roomA"), settings("roomB"), settings("roomC")])
    );
}

#[test]
fn empty_configuration_loads_as_empty_registry() {
    let registry = Config { matrix: vec![] }.to_map().unwrap();
    assert_eq!(registry.len(), 0);
    assert_eq!(registry.resolve(None), Ok(vec![]));
    assert_eq!(registry.resolve(Some(&vec![])), Ok(vec![]));
}

#[test]
fn shared_name_fails_to_load() {
    let config = Config { matrix: vec![settings("roomA"), settings("roomB"), settings("roomA")] };
    match config.to_map() {
        Err(e) => assert_eq!(e, ConfigError::DuplicateChannelName("roomA".to_owned())),
        Ok(_) => panic!("a shared name was loaded"),
    }
}

#[test]
fn first_repeated_name_is_reported() {
    let config = Config {
        matrix: vec![settings("a"), settings("b"), settings("c"), settings("b"), settings("a")],
    };
    match config.to_map() {
        Err(e) => assert_eq!(e, ConfigError::DuplicateChannelName("b".to_owned())),
        Ok(_) => panic!("a shared name was loaded"),
    }
}

#[test]
fn shared_name_fails_even_with_different_settings() {
    let mut other = settings("roomA");
    other.homeserver = "example.org".to_owned();
    other.session = Some(Session {
        access_token: "t".to_owned(),
        user_id: "@u:example.org".to_owned(),
        device_id: "D".to_owned(),
    });
    assert!(Config { matrix: vec![settings("roomA"), other] }.to_map().is_err());
}

#[test]
fn names_differ_by_case() {
    let registry = Config { matrix: vec![settings("roomA"), settings("rooma")] }.to_map().unwrap();
    assert_eq!(registry.len(), 2);
}

#[test]
fn get_finds_by_name() {
    let mut b = settings("roomB");
    b.initial_backlog_size = 7;
    let registry = Config { matrix: vec![settings("roomA"), b] }.to_map().unwrap();
    assert_eq!(registry.get("roomB").map(|c| c.initial_backlog_size), Some(7));
    assert_eq!(registry.get("roomA").map(|c| c.initial_backlog_size), Some(100));
    assert!(registry.get("roomZ").is_none());
    assert!(registry.get("").is_none());
}

#[test]
fn resolve_gives_the_requested_channels_in_the_requested_order() {
    let registry = Config { matrix: vec![settings("roomA"), settings("roomB"), settings("roomC")] }
        .to_map()
        .unwrap();
    assert_eq!(
        registry.resolve(Some(&names(&["roomC", "roomA"]))),
        Ok(vec![settings("roomC"), settings("roomA")])
    );
}

#[test]
fn resolve_gives_a_channel_for_each_mention() {
    let registry = Config { matrix: vec![settings("roomA")] }.to_map().unwrap();
    assert_eq!(
        registry.resolve(Some(&names(&["roomA", "roomA"]))),
        Ok(vec![settings("roomA"), settings("roomA")])
    );
}

#[test]
fn resolve_fails_on_unknown_name_without_partial_result() {
    let registry = Config { matrix: vec![settings("roomA")] }.to_map().unwrap();
    assert_eq!(
        registry.resolve(Some(&names(&["roomA", "roomZ"]))),
        Err(ConfigError::UnknownChannel("roomZ".to_owned()))
    );
}

#[test]
fn resolve_reports_the_first_unknown_name() {
    let registry = Config { matrix: vec![settings("roomA")] }.to_map().unwrap();
    assert_eq!(
        registry.resolve(Some(&names(&["roomY", "roomA", "roomZ"]))),
        Err(ConfigError::UnknownChannel("roomY".to_owned()))
    );
}

#[test]
fn config_error_messages() {
    assert_eq!(
        ConfigError::DuplicateChannelName("roomA".to_owned()).message(),
        "Ambiguous channel name roomA, please rename conflicted channels"
    );
    assert_eq!(ConfigError::UnknownChannel("roomZ".to_owned()).message(), "Channel roomZ not found");
}
