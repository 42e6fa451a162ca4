use host_namespaces_psp::settings::{PortRange, Settings, ValidatedSettings};

#[test]
fn validate_settings() {
    let invalid_settings = Settings {
        allow_host_ports: vec![PortRange { min: 443, max: 80 }],
        ..Default::default()
    };
    assert!(!invalid_settings.validate().is_ok());

    let valid_settings = Settings {
        allow_host_ports: vec![PortRange { min: 80, max: 443 }],
        ..Default::default()
    };
    assert!(valid_settings.validate().is_ok());

    let valid_settings = Settings {
        allow_host_ports: vec![
            PortRange { min: 80, max: 80 },
            PortRange { min: 443, max: 443 },
        ],
        ..Default::default()
    };
    assert!(valid_settings.validate().is_ok());
}

#[test]
fn default_settings_forbid_everything() {
    let s = Settings::default();
    assert!(!s.allow_host_ipc);
    assert!(!s.allow_host_network);
    assert!(!s.allow_host_pid);
    assert!(s.allow_host_ports.is_empty());
    assert_eq!(s.validate(), Ok(()));
}

#[test]
fn range_error_names_both_bounds() {
    let r = PortRange { min: 443, max: 80 };
    assert_eq!(
        r.validate(),
        Err("port min 443 cannot be greater than max 80".to_string())
    );
}

#[test]
fn range_error_writes_negative_bounds() {
    let r = PortRange { min: 5, max: -3 };
    assert_eq!(
        r.validate(),
        Err("port min 5 cannot be greater than max -3".to_string())
    );
    let r = PortRange { min: 0, max: -2147483648 };
    assert_eq!(
        r.validate(),
        Err("port min 0 cannot be greater than max -2147483648".to_string())
    );
}

#[test]
fn single_port_range_is_valid() {
    assert_eq!(PortRange { min: 443, max: 443 }.validate(), Ok(()));
    assert_eq!(PortRange { min: -10, max: 10 }.validate(), Ok(()));
}

#[test]
fn settings_report_first_invalid_range() {
    let s = Settings {
        allow_host_ports: vec![
            PortRange { min: 80, max: 443 },
            PortRange { min: 500, max: 400 },
            PortRange { min: 10, max: 1 },
        ],
        ..Default::default()
    };
    assert_eq!(
        s.validate(),
        Err("port min 500 cannot be greater than max 400".to_string())
    );
}

#[test]
fn in_range_is_closed_interval() {
    let r = PortRange { min: 80, max: 443 };
    assert!(r.in_range(80));
    assert!(r.in_range(443));
    assert!(r.in_range(200));
    assert!(!r.in_range(79));
    assert!(!r.in_range(444));
    assert!(!r.in_range(-80));
}

#[test]
fn in_range_single_and_negative() {
    let r = PortRange { min: 443, max: 443 };
    assert!(r.in_range(443));
    assert!(!r.in_range(442));
    let r = PortRange { min: -5, max: 0 };
    assert!(r.in_range(0));
    assert!(r.in_range(-5));
    assert!(!r.in_range(1));
}

#[test]
fn validated_settings_keep_valid_input() {
    let s = Settings {
        allow_host_pid: true,
        allow_host_ports: vec![PortRange { min: 80, max: 443 }],
        ..Default::default()
    };
    let v = ValidatedSettings::new(s).expect("valid settings");
    assert!(v.settings().allow_host_pid);
    assert!(!v.settings().allow_host_ipc);
    assert_eq!(v.settings().allow_host_ports, vec![PortRange { min: 80, max: 443 }]);
}

#[test]
fn validated_settings_refuse_invalid_input() {
    let s = Settings {
        allow_host_ports: vec![PortRange { min: 1, max: 2 }, PortRange { min: 9000, max: 8000 }],
        ..Default::default()
    };
    match ValidatedSettings::new(s) {
        Ok(_) => panic!("invalid settings were accepted"),
        Err(m) => assert_eq!(m, "port min 9000 cannot be greater than max 8000"),
    }
}
