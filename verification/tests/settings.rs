use messaging::settings::{default_settings, Environment, Jaeger};

#[test]
fn environment_names_are_canonical() {
    assert_eq!(Environment::Development.as_str(), "development");
    assert_eq!(Environment::Production.as_str(), "production");
}

#[test]
fn environment_parses_case_insensitively() {
    assert_eq!(Environment::try_from("development".to_string()).unwrap(), Environment::Development);
    assert_eq!(Environment::try_from("PRODUCTION".to_string()).unwrap(), Environment::Production);
    assert_eq!(Environment::try_from("Development".to_string()).unwrap(), Environment::Development);
}

#[test]
fn unknown_environment_is_rejected_with_its_name() {
    let err = Environment::try_from("Staging".to_string()).unwrap_err();
    assert_eq!(err, "staging is not a supported environment. Use either `local` or `production`.");
}

#[test]
fn defaults_point_at_the_local_machine() {
    let settings = default_settings();
    assert_eq!(settings.app.host, "127.0.0.1");
    assert_eq!(settings.app.port, 7000);
    assert_eq!(settings.app.environment, Environment::Development);
    assert_eq!(settings.app.service_name, "messaging");
    assert_eq!(settings.jaeger.host, "127.0.0.1");
    assert_eq!(settings.jaeger.port, 6831);
    assert_eq!(settings.jaeger.sampler_per_mille, 1000);
}

#[test]
fn sampling_ratio_must_lie_in_the_unit_interval() {
    let mut jaeger = Jaeger {
        host: "127.0.0.1".to_string(),
        port: 6831,
        sampler_per_mille: 1000,
    };
    assert!(jaeger.sampler_valid());
    jaeger.sampler_per_mille = 1001;
    assert!(!jaeger.sampler_valid());
    jaeger.sampler_per_mille = 0;
    assert!(jaeger.sampler_valid());
}
