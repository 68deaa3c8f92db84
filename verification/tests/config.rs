use docker_ps::config::{containers_endpoint, resolve_config, select_transport, Config, Transport};

#[test]
fn defaults_apply_when_nothing_is_set() {
    let config = resolve_config(None, None);
    assert_eq!(config.url, "http://localhost");
    assert_eq!(config.unix, "/var/run/docker.sock");
}

#[test]
fn configured_values_win() {
    let config = resolve_config(
        Some("http://10.0.0.5:2375".to_string()),
        Some("/run/user/1000/docker.sock".to_string()),
    );
    assert_eq!(config.url, "http://10.0.0.5:2375");
    assert_eq!(config.unix, "/run/user/1000/docker.sock");
}

#[test]
fn each_value_defaults_on_its_own() {
    let config = resolve_config(Some("http://remote".to_string()), None);
    assert_eq!(config.url, "http://remote");
    assert_eq!(config.unix, "/var/run/docker.sock");
    let config = resolve_config(None, Some("/tmp/d.sock".to_string()));
    assert_eq!(config.url, "http://localhost");
    assert_eq!(config.unix, "/tmp/d.sock");
}

#[test]
fn empty_text_is_a_value() {
    let config = resolve_config(Some(String::new()), Some(String::new()));
    assert_eq!(config.url, "");
    assert_eq!(config.unix, "");
}

#[test]
fn empty_socket_selects_tcp() {
    let config = Config { url: "http://localhost:2375".to_string(), unix: String::new() };
    assert_eq!(select_transport(&config), Transport::Tcp);
}

#[test]
fn socket_path_selects_unix_socket() {
    let config = resolve_config(None, None);
    assert_eq!(select_transport(&config), Transport::UnixSocket("/var/run/docker.sock".to_string()));
    let config = Config { url: String::new(), unix: " ".to_string() };
    assert_eq!(select_transport(&config), Transport::UnixSocket(" ".to_string()));
}

#[test]
fn endpoint_is_below_the_base_address() {
    assert_eq!(containers_endpoint("http://localhost"), "http://localhost/containers/json");
    assert_eq!(containers_endpoint("http://10.0.0.5:2375"), "http://10.0.0.5:2375/containers/json");
    assert_eq!(containers_endpoint(""), "/containers/json");
}
