use fenrir_rs::builder::DEFAULT_FLUSH_THRESHOLD;
use fenrir_rs::{
    AuthenticationMethod, Backend, ConfigurationError, Endpoint, EntryBuffer, Fenrir, Level,
    LogOutcome, LogRecord, NetworkingBackend, SerializationFormat,
};

fn record(message: &str) -> LogRecord {
    LogRecord {
        level: Level::Info,
        target: "app".to_string(),
        message: message.to_string(),
        module: Some("app::main".to_string()),
        file: None,
        line: None,
        key_values: Vec::new(),
    }
}

#[test]
#[should_panic]
fn building_a_validated_fenrir_instance_without_network_backend_panics() {
    let builder = Fenrir::builder().format(SerializationFormat::Json);
    builder.validate().unwrap();
    let _fenrir = builder.build_with_validation();
}

#[test]
fn building_a_non_validated_fenrir_instance_without_network_backend_does_not_panic() {
    let _fenrir = Fenrir::builder().format(SerializationFormat::Json).build();
}

#[test]
#[should_panic]
fn building_a_validated_fenrir_instance_without_serialization_backend_panics() {
    let builder = Fenrir::builder().network(NetworkingBackend::Ureq);
    builder.validate().unwrap();
    let _fenrir = builder.build_with_validation();
}

#[test]
fn building_a_non_validated_fenrir_instance_without_serialization_backend_does_not_panic() {
    let _fenrir = Fenrir::builder().network(NetworkingBackend::Ureq).build();
}

#[test]
fn creating_a_noop_instance_without_credentials_works_correctly() {
    let result = Fenrir::builder()
        .endpoint(Endpoint::parse("https://loki.example.com").unwrap())
        .network(NetworkingBackend::Noop)
        .format(SerializationFormat::Json)
        .build();
    assert_eq!(
        result.backend().authentication_method(),
        AuthenticationMethod::NoAuth
    );
    assert_eq!(result.backend().credentials(), None);
    assert_eq!(result.backend().internal_type(), NetworkingBackend::Noop);
}

#[test]
fn creating_a_noop_instance_with_credentials_works_correctly() {
    let result = Fenrir::builder()
        .endpoint(Endpoint::parse("https://loki.example.com").unwrap())
        .network(NetworkingBackend::Noop)
        .format(SerializationFormat::Json)
        .with_authentication(
            AuthenticationMethod::Basic,
            "username".to_string(),
            "password".to_string(),
        )
        .build();
    assert_eq!(
        result.backend().authentication_method(),
        AuthenticationMethod::NoAuth
    );
    assert_eq!(result.backend().credentials(), None);
    assert_eq!(result.backend().internal_type(), NetworkingBackend::Noop);
}

#[test]
fn creating_a_ureq_instance_without_credentials_works_correctly() {
    let result = Fenrir::builder()
        .endpoint(Endpoint::parse("https://loki.example.com").unwrap())
        .network(NetworkingBackend::Ureq)
        .format(SerializationFormat::Json)
        .build();
    assert_eq!(
        result.backend().authentication_method(),
        AuthenticationMethod::NoAuth
    );
    assert_eq!(result.backend().credentials(), None);
    assert_eq!(result.backend().internal_type(), NetworkingBackend::Ureq);
}

#[test]
fn ureq_creating_a_ureq_instance_with_credentials_works_correctly() {
    let result = Fenrir::builder()
        .endpoint(Endpoint::parse("https://loki.example.com").unwrap())
        .network(NetworkingBackend::Ureq)
        .format(SerializationFormat::Json)
        .with_authentication(
            AuthenticationMethod::Basic,
            "username".to_string(),
            "password".to_string(),
        )
        .build();
    assert_eq!(
        result.backend().authentication_method(),
        AuthenticationMethod::Basic
    );
    assert_eq!(
        result.backend().credentials(),
        Some("dXNlcm5hbWU6cGFzc3dvcmQ=".to_string())
    );
    assert_eq!(result.backend().internal_type(), NetworkingBackend::Ureq);
}

#[test]
fn creating_a_reqwest_instance_without_credentials_works_correctly() {
    let runtime = tokio::runtime::Builder::new_current_thread()
        .build()
        .unwrap();
    let _guard = runtime.enter();
    let result = Fenrir::builder()
        .endpoint(Endpoint::parse("https://loki.example.com").unwrap())
        .network(NetworkingBackend::Reqwest)
        .format(SerializationFormat::Json)
        .build();
    assert_eq!(
        result.backend().authentication_method(),
        AuthenticationMethod::NoAuth
    );
    assert_eq!(result.backend().credentials(), None);
    assert_eq!(result.backend().internal_type(), NetworkingBackend::Reqwest);
}

#[test]
fn reqwest_creating_a_ureq_instance_with_credentials_works_correctly() {
    let runtime = tokio::runtime::Builder::new_current_thread()
        .build()
        .unwrap();
    let _guard = runtime.enter();
    let result = Fenrir::builder()
        .endpoint(Endpoint::parse("https://loki.example.com").unwrap())
        .network(NetworkingBackend::Reqwest)
        .format(SerializationFormat::Json)
        .with_authentication(
            AuthenticationMethod::Basic,
            "username".to_string(),
            "password".to_string(),
        )
        .build();
    assert_eq!(
        result.backend().authentication_method(),
        AuthenticationMethod::Basic
    );
    assert_eq!(
        result.backend().credentials(),
        Some("dXNlcm5hbWU6cGFzc3dvcmQ=".to_string())
    );
    assert_eq!(result.backend().internal_type(), NetworkingBackend::Reqwest);
}

#[test]
fn a_fresh_builder_makes_an_idle_sink_with_the_noop_backend() {
    let fenrir = Fenrir::builder().build();
    assert_eq!(fenrir.backend().internal_type(), NetworkingBackend::Noop);
    assert!(fenrir.flush().is_none());
    assert_eq!(fenrir.threshold(), 100);
    assert_eq!(DEFAULT_FLUSH_THRESHOLD, 100);
}

#[test]
fn the_default_threshold_is_one_hundred_entries() {
    let fenrir = Fenrir::builder().build();
    let mut buffer = EntryBuffer::new(0);
    for i in 1..100 {
        match fenrir.log_into(&mut buffer, &record("waiting"), i as u128) {
            LogOutcome::Buffered(size) => assert_eq!(size, i),
            other => panic!("entry {} did not wait: {:?}", i, other),
        }
    }
    match fenrir.log_into(&mut buffer, &record("the hundredth"), 100) {
        LogOutcome::Flushed(flush) => assert_eq!(flush.batch.len(), 100),
        other => panic!("the hundredth entry did not flush: {:?}", other),
    }
    assert_eq!(buffer.len(), 0);
}

#[test]
fn validation_names_the_missing_networking_backend() {
    let builder = Fenrir::builder().format(SerializationFormat::Json);
    assert_eq!(
        builder.validate(),
        Err(ConfigurationError::MissingNetworkingBackend)
    );
}

#[test]
fn validation_names_the_missing_serialization_format() {
    let builder = Fenrir::builder().network(NetworkingBackend::Ureq);
    assert_eq!(
        builder.validate(),
        Err(ConfigurationError::MissingSerializationFormat)
    );
}

#[test]
fn validation_names_the_missing_runtime() {
    let builder = Fenrir::builder()
        .network(NetworkingBackend::Reqwest)
        .format(SerializationFormat::Json);
    assert_eq!(builder.validate(), Err(ConfigurationError::MissingRuntime));
}

#[test]
fn validation_accepts_a_background_backend_with_a_runtime() {
    let runtime = tokio::runtime::Builder::new_current_thread()
        .build()
        .unwrap();
    let builder = Fenrir::builder()
        .network(NetworkingBackend::Reqwest)
        .format(SerializationFormat::Json)
        .tokio_rt_handle(runtime.handle().clone());
    assert_eq!(builder.validate(), Ok(()));
    let fenrir = builder.build_with_validation();
    match fenrir.backend() {
        Backend::Reqwest(backend) => assert!(backend.runtime_handle.is_some()),
        other => panic!("not the background backend: {:?}", other),
    }
}

#[test]
fn validation_accepts_a_blocking_backend_without_a_runtime() {
    let builder = Fenrir::builder()
        .network(NetworkingBackend::Ureq)
        .format(SerializationFormat::Json);
    assert_eq!(builder.validate(), Ok(()));
    let fenrir = builder.build_with_validation();
    assert_eq!(fenrir.backend().internal_type(), NetworkingBackend::Ureq);
}

#[test]
fn the_current_runtime_is_found_inside_a_runtime_only() {
    let outside = Fenrir::builder()
        .network(NetworkingBackend::Reqwest)
        .format(SerializationFormat::Json)
        .tokio_rt_handle_current();
    assert_eq!(outside.validate(), Err(ConfigurationError::MissingRuntime));

    let runtime = tokio::runtime::Builder::new_current_thread()
        .build()
        .unwrap();
    let _guard = runtime.enter();
    let inside = Fenrir::builder()
        .network(NetworkingBackend::Reqwest)
        .format(SerializationFormat::Json)
        .tokio_rt_handle_current();
    assert_eq!(inside.validate(), Ok(()));
}

#[test]
fn without_authentication_stored_credentials_stay() {
    let fenrir = Fenrir::builder()
        .network(NetworkingBackend::Ureq)
        .with_authentication(
            AuthenticationMethod::Basic,
            "username".to_string(),
            "password".to_string(),
        )
        .with_authentication(
            AuthenticationMethod::NoAuth,
            "other".to_string(),
            "secret".to_string(),
        )
        .build();
    assert_eq!(
        fenrir.backend().authentication_method(),
        AuthenticationMethod::NoAuth
    );
    assert_eq!(
        fenrir.backend().credentials(),
        Some("dXNlcm5hbWU6cGFzc3dvcmQ=".to_string())
    );
}

#[test]
fn only_the_background_backend_is_async() {
    assert!(!NetworkingBackend::Noop.is_async());
    assert!(!NetworkingBackend::Ureq.is_async());
    assert!(NetworkingBackend::Reqwest.is_async());
}

#[test]
fn a_runtime_that_was_set_can_be_taken_away_again() {
    let runtime = tokio::runtime::Builder::new_current_thread()
        .build()
        .unwrap();
    let with = Fenrir::builder()
        .network(NetworkingBackend::Reqwest)
        .format(SerializationFormat::Json)
        .with_runtime(Some(runtime.handle().clone()));
    assert_eq!(with.validate(), Ok(()));
    let without = with.with_runtime(None);
    assert_eq!(without.validate(), Err(ConfigurationError::MissingRuntime));
}
