use metrics_gateway::producer::{check_metric_name, Registry, RegistryError};

#[test]
fn empty_registry_serves_only_the_scrape_counter() {
    let mut reg = Registry::new();
    let r = reg.serve_scrape();
    assert_eq!(r.text, "scrape_requests_total 1\n");
    assert_eq!(reg.scrapes, 1);
}

#[test]
fn registered_instruments_appear_in_order() {
    let mut reg = Registry::new();
    assert_eq!(
        reg.register(String::from("http_requests_total"), 42),
        Ok(())
    );
    assert_eq!(reg.register(String::from("queue_depth"), 0), Ok(()));
    let r = reg.serve_scrape();
    assert_eq!(
        r.text,
        "http_requests_total 42\nqueue_depth 0\nscrape_requests_total 1\n"
    );
}

#[test]
fn scrape_count_never_decreases_across_scrapes() {
    let mut reg = Registry::new();
    reg.register(String::from("up"), 1).unwrap();
    let mut last = 0u64;
    for expected in 1..=5u64 {
        let r = reg.serve_scrape();
        assert_eq!(reg.scrapes, expected);
        assert!(reg.scrapes >= last);
        last = reg.scrapes;
        let line = format!("up 1\nscrape_requests_total {}\n", expected);
        assert_eq!(r.text, line);
    }
}

#[test]
fn invalid_names_are_rejected_and_leave_the_registry_unchanged() {
    let mut reg = Registry::new();
    assert_eq!(
        reg.register(String::from("9starts_with_digit"), 1),
        Err(RegistryError::InvalidName)
    );
    assert_eq!(
        reg.register(String::from("has space"), 1),
        Err(RegistryError::InvalidName)
    );
    assert_eq!(
        reg.register(String::from(""), 1),
        Err(RegistryError::InvalidName)
    );
    let r = reg.serve_scrape();
    assert_eq!(r.text, "scrape_requests_total 1\n");
}

#[test]
fn metric_name_grammar() {
    assert!(check_metric_name("scrape_requests_total"));
    assert!(check_metric_name("a"));
    assert!(check_metric_name("_hidden"));
    assert!(check_metric_name("ns:subsystem_total"));
    assert!(check_metric_name("Upper_Case9"));
    assert!(!check_metric_name(""));
    assert!(!check_metric_name("9lead"));
    assert!(!check_metric_name("bad-dash"));
    assert!(!check_metric_name("caf\u{e9}"));
}
