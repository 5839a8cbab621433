use streamline_client::config::clamp_streamline_port;
use streamline_client::config::AppConfig;
use streamline_client::config::SharedConfig;

#[test]
fn default_configuration() {
    let c = AppConfig::try_default().unwrap();
    assert_eq!(c.nrepl_port, 7869);
    assert_eq!(c.streamline_server_port, 8080);
    assert_eq!(c.nrepl_host, "localhost");
    assert_eq!(c.streamline_host, "localhost");
}

#[test]
fn snapshot_sees_the_whole_write() {
    let shared = SharedConfig::new(AppConfig::try_default().unwrap());
    let mut next = AppConfig::try_default().unwrap();
    next.nrepl_host = String::from("eval.example");
    next.nrepl_port = 7001;
    next.streamline_host = String::from("mgmt.example");
    next.streamline_server_port = 9001;
    shared.reconfigure(next);
    let snap = shared.snapshot();
    assert_eq!(snap.nrepl_host, "eval.example");
    assert_eq!(snap.nrepl_port, 7001);
    assert_eq!(snap.streamline_host, "mgmt.example");
    assert_eq!(snap.streamline_server_port, 9001);
}

#[test]
fn clamp_streamline_port_bounds() {
    assert_eq!(clamp_streamline_port(8080), 8080);
    assert_eq!(clamp_streamline_port(999), 1000);
    assert_eq!(clamp_streamline_port(10001), 10000);
    assert_eq!(clamp_streamline_port(1000), 1000);
    assert_eq!(clamp_streamline_port(10000), 10000);
    assert_eq!(clamp_streamline_port(-5), 1000);
}
