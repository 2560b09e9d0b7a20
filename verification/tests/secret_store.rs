use env_type::secret_store::secret_text;
use env_type::types::{AsEnvStr, EnvKey, EnvType, FromKey};
use shuttle_runtime::SecretStore;
use std::collections::BTreeMap;

struct Stage;

impl EnvKey for Stage {
    fn key() -> &'static str {
        "STAGE"
    }
}

fn store(pairs: &[(&str, &str)]) -> SecretStore {
    let mut secrets = BTreeMap::new();
    for (name, value) in pairs {
        secrets.insert(name.to_string(), value.to_string().into());
    }
    SecretStore::new(secrets)
}

#[test]
fn env_comes_from_the_secret_named_env() {
    assert_eq!(EnvType::from(store(&[("ENV", "Production")])), EnvType::Prod);
    assert_eq!(EnvType::from(store(&[("ENV", "t"), ("STAGE", "stg")])), EnvType::Test);
    assert_eq!(EnvType::from(store(&[("STAGE", "stg")])), EnvType::Dev);
    assert_eq!(EnvType::from(store(&[("ENV", "qa")])), EnvType::Dev);
    assert_eq!(EnvType::from(store(&[("ENV", "")])), EnvType::Dev);
    assert_eq!(EnvType::from(store(&[])), EnvType::Dev);
}

#[test]
fn from_key_reads_the_secret_of_that_name() {
    let secrets = || store(&[("ENV", "Production"), ("STAGE", "stg")]);
    assert_eq!(<EnvType as FromKey<SecretStore, EnvType>>::from_key::<Stage>(secrets()), EnvType::Stg);
    assert_eq!(<EnvType as FromKey<SecretStore, EnvType>>::from_key::<EnvType>(secrets()), EnvType::Prod);
    assert_eq!(
        <EnvType as FromKey<SecretStore, EnvType>>::from_key::<Stage>(store(&[("ENV", "p")])),
        EnvType::Dev
    );
}

#[test]
fn secret_store_gives_the_secret_or_nothing() {
    let secrets = store(&[("ENV", "Production"), ("STAGE", "anything")]);
    assert_eq!(secrets.as_env_str::<EnvType>(), "Production");
    assert_eq!(secrets.as_env_str::<Stage>(), "anything");
    assert_eq!(secret_text::<Stage>(&secrets), "anything");
    assert_eq!(store(&[("ENV", "p")]).as_env_str::<Stage>(), "");
    assert_eq!(secret_text::<EnvType>(&store(&[])), "");
}

#[test]
fn secret_store_is_a_source_for_from_env_types() {
    let secrets = || store(&[("ENV", "test"), ("STAGE", "S")]);
    assert_eq!(EnvType::from_env_types::<SecretStore, EnvType>(secrets()), EnvType::Test);
    assert_eq!(EnvType::from_env_types::<SecretStore, Stage>(secrets()), EnvType::Stg);
}
