use metrics_gateway::config::{
    default_config, parse_logging_style, BindAddr, ConfigError, LoggingStyle, Scheme,
};
use metrics_gateway::numerals::fmt_u64;

#[test]
fn simple_selects_compact_logging() {
    assert_eq!(parse_logging_style("simple"), Ok(LoggingStyle::Compact));
}

#[test]
fn compat_selects_compact_logging() {
    assert_eq!(parse_logging_style("compat"), Ok(LoggingStyle::Compact));
}

#[test]
fn json_selects_json_logging() {
    assert_eq!(parse_logging_style("json"), Ok(LoggingStyle::Json));
}

#[test]
fn other_styles_are_rejected() {
    let r = parse_logging_style("verbose");
    assert_eq!(r, Err(ConfigError::UnknownLoggingStyle));
    assert_eq!(
        ConfigError::UnknownLoggingStyle.message(),
        "Either simple or json must be specified"
    );
    assert!(parse_logging_style("").is_err());
    assert!(parse_logging_style("Simple").is_err());
}

#[test]
fn defaults_are_documented_values() {
    let c = default_config();
    assert_eq!(c.bind.len(), 1);
    assert_eq!(c.bind[0].text(), "127.0.0.1:8080");
    assert_eq!(c.target.scheme, Scheme::Http);
    assert_eq!(c.target.port, 50051);
    assert_eq!(c.target.text(), "http://127.0.0.1:50051");
    assert_eq!(c.logging, LoggingStyle::Compact);
}

#[test]
fn bind_addr_text_is_dotted_quad() {
    let a = BindAddr {
        o1: 0,
        o2: 0,
        o3: 0,
        o4: 0,
        port: 80,
    };
    assert_eq!(a.text(), "0.0.0.0:80");
    let b = BindAddr {
        o1: 255,
        o2: 255,
        o3: 255,
        o4: 255,
        port: 65535,
    };
    assert_eq!(b.text(), "255.255.255.255:65535");
}

#[test]
fn numerals_render_exactly() {
    assert_eq!(fmt_u64(0), "0");
    assert_eq!(fmt_u64(7), "7");
    assert_eq!(fmt_u64(10), "10");
    assert_eq!(fmt_u64(50051), "50051");
    assert_eq!(fmt_u64(u64::MAX), "18446744073709551615");
}
