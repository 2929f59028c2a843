use roomtemp::crypto::CryptoError;
use roomtemp::keystore::KeyStore;
use roomtemp::repository::{
    materialize_default_then_read, read_settings, write_settings, write_then_read,
    DieselSettingsRepositoryError, SettingEntity, SettingsRepository,
};
use roomtemp::settings::Settings;
use roomtemp::usecase::{get_setting, set_setting, SettingsError};

fn fixed_store(first_byte: u8) -> KeyStore {
    let mut key = vec![0u8; 32];
    key[0] = first_byte;
    KeyStore::set_test_key(key)
}

#[test]
fn set_and_get_setting_roundtrip() {
    let ks = fixed_store(42);
    let s = Settings {
        id: 1,
        url: "https://example.com".into(),
        access_token: "tok".into(),
        use_proxies: true,
        proxy_url: "http://p".into(),
    };
    let row = write_settings(&ks, &s).expect("set ok");
    let (got, inserted) = read_settings(&ks, Some(row)).expect("get ok");
    assert!(inserted.is_none());
    assert_eq!(got.url, "https://example.com");
    assert_eq!(got.use_proxies, true);
    assert_eq!(got.access_token, "tok");
}

#[test]
fn get_inserts_default_if_missing() {
    let ks = fixed_store(1);
    let (s, inserted) = read_settings(&ks, None).expect("get ok");
    assert!(inserted.is_some());
    assert_eq!(s.id, 1);
}

#[test]
fn default_record_is_empty_and_stable() {
    let ks = fixed_store(11);
    let (first, second) = materialize_default_then_read(&ks).expect("both reads");
    assert_eq!(first.id, 1);
    assert_eq!(first.url, "");
    assert_eq!(first.access_token, "");
    assert!(!first.use_proxies);
    assert_eq!(first.proxy_url, "");
    assert_eq!(second, first);
}

#[test]
fn write_then_read_returns_written_fields() {
    let ks = fixed_store(8);
    let s = Settings {
        id: 1,
        url: "https://x".into(),
        access_token: "tok".into(),
        use_proxies: true,
        proxy_url: "http://p".into(),
    };
    let got = write_then_read(&ks, &s).expect("round trip");
    assert_eq!(got, s);
}

#[test]
fn stored_row_never_holds_the_plain_token() {
    let ks = fixed_store(23);
    let s = Settings::new(
        "https://example.com".into(),
        "super-secret-token".into(),
        false,
        String::new(),
    );
    let row = write_settings(&ks, &s).expect("set ok");
    let needle = "super-secret-token".as_bytes();
    let blob = &row.encrypted_access_token;
    let leaked = blob.windows(needle.len()).any(|w| w == needle);
    assert!(!leaked);
    assert_eq!(row.encrypted_access_token_nonce.len(), 12);
}

/// An in-memory repository over the verified read/write halves, standing
/// in for the database-backed one.
struct MemRepository {
    ks: KeyStore,
    row: Option<SettingEntity>,
}

impl SettingsRepository for MemRepository {
    fn get(&mut self) -> Result<Option<Settings>, DieselSettingsRepositoryError> {
        let (settings, inserted) = read_settings(&self.ks, self.row.clone())?;
        if let Some(entity) = inserted {
            self.row = Some(entity);
        }
        Ok(Some(settings))
    }

    fn set(&mut self, setting: Settings) -> Result<(), DieselSettingsRepositoryError> {
        let entity = write_settings(&self.ks, &setting)?;
        self.row = Some(entity);
        Ok(())
    }
}

#[test]
fn get_and_set_settings_roundtrip() {
    let mut repo = MemRepository { ks: fixed_store(2), row: None };

    let got = get_setting(&mut repo).expect("get ok").expect("some");
    assert_eq!(got.id, 1);

    let s = Settings::new("https://x".into(), "tok".into(), true, "http://p".into());
    set_setting(&mut repo, s).expect("set ok");
    let got2 = get_setting(&mut repo).expect("get ok").expect("some");
    assert_eq!(got2.url, "https://x");
    assert_eq!(got2.access_token, "tok");
}

/// A scripted repository for the use-case tests.
struct ScriptedRepository {
    get_result: Option<Result<Option<Settings>, DieselSettingsRepositoryError>>,
    set_result: Option<Result<(), DieselSettingsRepositoryError>>,
    last_set: Option<Settings>,
}

impl SettingsRepository for ScriptedRepository {
    fn get(&mut self) -> Result<Option<Settings>, DieselSettingsRepositoryError> {
        self.get_result.take().expect("get scripted once")
    }

    fn set(&mut self, setting: Settings) -> Result<(), DieselSettingsRepositoryError> {
        self.last_set = Some(setting);
        self.set_result.take().expect("set scripted once")
    }
}

fn sample_setting() -> Settings {
    Settings {
        id: 1,
        url: "https://example.com".into(),
        access_token: "token-123".into(),
        use_proxies: false,
        proxy_url: "".into(),
    }
}

#[test]
fn get_setting_returns_data() {
    let mut repo = ScriptedRepository {
        get_result: Some(Ok(Some(sample_setting()))),
        set_result: None,
        last_set: None,
    };

    let settings = get_setting(&mut repo).expect("should return Ok");
    let settings = settings.expect("should have a setting record");

    assert_eq!(settings.url, "https://example.com");
    assert_eq!(settings.access_token, "token-123");
    assert!(!settings.use_proxies);
    assert_eq!(settings.proxy_url, "");
}

#[test]
fn set_setting_persists_value() {
    let mut repo = ScriptedRepository {
        get_result: None,
        set_result: Some(Ok(())),
        last_set: None,
    };

    set_setting(&mut repo, sample_setting()).expect("should propagate success");
    let seen = repo.last_set.expect("set called");
    assert_eq!(seen.url, "https://example.com");
    assert_eq!(seen.access_token, "token-123");
    assert!(!seen.use_proxies);
}

#[test]
fn get_setting_propagates_repository_error() {
    let mut repo = ScriptedRepository {
        get_result: Some(Err(DieselSettingsRepositoryError::Crypto(CryptoError::Decrypt))),
        set_result: None,
        last_set: None,
    };

    let err = get_setting(&mut repo).expect_err("should surface errors");
    match err {
        SettingsError::DieselSettingsRepository(DieselSettingsRepositoryError::Crypto(
            CryptoError::Decrypt,
        )) => {}
        other => panic!("unexpected error: {other:?}"),
    }
}
