use greeting_service::config::Config;
use greeting_service::printer::Printer;

fn config_with_port(http_port: u16) -> Config {
    Config {
        log_level: "info".to_owned(),
        http_port,
        say: "Hello".to_owned(),
        package_name: "test".to_owned(),
        package_version: "test".to_owned(),
    }
}

#[test]
fn bind_address_of_the_usual_port() {
    assert_eq!(config_with_port(3000).bind_address(), "0.0.0.0:3000");
}

#[test]
fn bind_address_of_port_zero() {
    assert_eq!(config_with_port(0).bind_address(), "0.0.0.0:0");
}

#[test]
fn bind_address_of_a_port_of_one_digit() {
    assert_eq!(config_with_port(7).bind_address(), "0.0.0.0:7");
    assert_eq!(config_with_port(9).bind_address(), "0.0.0.0:9");
}

#[test]
fn bind_address_of_ports_around_a_power_of_ten() {
    assert_eq!(config_with_port(10).bind_address(), "0.0.0.0:10");
    assert_eq!(config_with_port(99).bind_address(), "0.0.0.0:99");
    assert_eq!(config_with_port(100).bind_address(), "0.0.0.0:100");
    assert_eq!(config_with_port(1001).bind_address(), "0.0.0.0:1001");
    assert_eq!(config_with_port(3456).bind_address(), "0.0.0.0:3456");
}

#[test]
fn bind_address_of_the_largest_port() {
    assert_eq!(config_with_port(65535).bind_address(), "0.0.0.0:65535");
}

#[test]
fn bind_address_agrees_with_the_standard_formatting() {
    for port in [0u16, 1, 8, 80, 443, 8080, 10000, 40404, 65535] {
        assert_eq!(
            config_with_port(port).bind_address(),
            format!("0.0.0.0:{}", port)
        );
    }
}

#[test]
fn the_configured_prefix_is_the_one_greetings_start_with() {
    let config = config_with_port(3000);
    let printer = Printer::new(config.say.clone());
    assert_eq!(printer.format(None), "Hello World!");
}
