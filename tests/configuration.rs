use zero::configuration::{DatabaseSettings, EmailClientSettings, Environment};

#[test]
fn environment_names_are_read_in_any_case() {
    assert!(matches!(Environment::try_from("local".to_string()), Ok(Environment::Local)));
    assert!(matches!(Environment::try_from("LOCAL".to_string()), Ok(Environment::Local)));
    assert!(matches!(
        Environment::try_from("Production".to_string()),
        Ok(Environment::Production)
    ));
}

#[test]
fn unknown_environment_is_rejected_with_its_name() {
    let err = Environment::try_from("Staging".to_string()).err().unwrap();
    assert_eq!(err, "staging is not a supported environment. Use `local` or `production`.");
}

#[test]
fn from_lowercase_is_case_sensitive() {
    assert!(Environment::from_lowercase("LOCAL".to_string()).is_err());
    assert!(matches!(
        Environment::from_lowercase("production".to_string()),
        Ok(Environment::Production)
    ));
}

#[test]
fn environment_as_str() {
    assert_eq!(Environment::Local.as_str(), "local");
    assert_eq!(Environment::Production.as_str(), "production");
}

#[test]
fn connection_string_joins_its_parts() {
    let db = DatabaseSettings {
        port: 27017,
        host: "cluster0.example.net".to_string(),
        database_name: "zero".to_string(),
        database_password: "pw".to_string(),
    };
    assert_eq!(db.connection_string(), "mongodb+srv://zero:pw@cluster0.example.net");
}

#[test]
fn sender_is_validated() {
    let good = EmailClientSettings {
        base_url: "http://localhost".to_string(),
        client_secret: "k".to_string(),
        sender_email: "sender@example.com".to_string(),
    };
    assert_eq!(good.sender().unwrap().as_str(), "sender@example.com");
    assert_eq!(good.client_secret(), "k");
    let bad = EmailClientSettings {
        base_url: "http://localhost".to_string(),
        client_secret: "k".to_string(),
        sender_email: "sender".to_string(),
    };
    assert!(bad.sender().is_err());
}
