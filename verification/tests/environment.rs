use env_type::context::{Context, ContextBuilder, ContextMarker};
use env_type::environment::{Environment, EnvironmentBuilder};
use env_type::is_debug::{debug_context, IsDebug, IsDebugContext};
use env_type::slot::identities_differ;
use env_type::types::{EnvError, EnvType};

struct Label;

impl ContextMarker for Label {
    type Value = String;
}

struct Workers;

impl ContextMarker for Workers {
    type Value = i64;
}

struct Retries;

impl ContextMarker for Retries {
    type Value = i64;
}

fn labels() -> Context<Label> {
    ContextBuilder::<Label>::default()
        .with_value(EnvType::Dev, "dev".to_string())
        .with_value(EnvType::Test, "test".to_string())
        .with_default("default".to_string())
        .build()
}

fn built(builder: EnvironmentBuilder) -> Environment {
    match builder.build() {
        Ok(env) => env,
        Err(error) => panic!("build failed: {:?}", error),
    }
}

#[test]
fn current_value_follows_the_current_env() {
    let env = built(EnvironmentBuilder::default().current_env(EnvType::Dev).with_context(labels()));
    assert_eq!(*env.current_env(), EnvType::Dev);
    assert_eq!(env.current_value::<Label>(), Some("dev".to_string()));

    let env = built(EnvironmentBuilder::default().with_context(labels()).current_env(EnvType::Prod));
    assert_eq!(*env.current_env(), EnvType::Prod);
    assert_eq!(env.current_value::<Label>(), Some("default".to_string()));
}

#[test]
fn value_asks_for_any_env() {
    let env = built(EnvironmentBuilder::default().current_env(EnvType::Stg).with_context(labels()));
    assert_eq!(env.value::<Label>(&EnvType::Dev), Some("dev".to_string()));
    assert_eq!(env.value::<Label>(&EnvType::Test), Some("test".to_string()));
    assert_eq!(env.value::<Label>(&EnvType::Stg), Some("default".to_string()));
    assert_eq!(env.value::<Label>(&EnvType::Prod), Some("default".to_string()));
}

#[test]
fn build_needs_a_current_env() {
    let error = EnvironmentBuilder::default().build().err();
    assert_eq!(error, Some(EnvError::NoCurrentEnv));
    let error = EnvironmentBuilder::default().with_context(labels()).build().err();
    assert_eq!(error, Some(EnvError::NoCurrentEnv));
    for current in [EnvType::Dev, EnvType::Test, EnvType::Stg, EnvType::Prod] {
        let env = EnvironmentBuilder::default().current_env(current).build();
        assert!(env.is_ok());
        assert_eq!(*built(EnvironmentBuilder::default().current_env(current)).current_env(), current);
    }
}

#[test]
fn later_current_env_replaces_earlier() {
    let env = built(EnvironmentBuilder::default().current_env(EnvType::Dev).current_env(EnvType::Test));
    assert_eq!(*env.current_env(), EnvType::Test);
}

#[test]
fn current_from_converts_the_source() {
    struct Config {
        live: bool,
    }

    impl From<Config> for EnvType {
        fn from(config: Config) -> Self {
            if config.live {
                EnvType::Prod
            } else {
                EnvType::Dev
            }
        }
    }

    let env = built(EnvironmentBuilder::default().current_from(Config { live: true }).with_context(labels()));
    assert_eq!(*env.current_env(), EnvType::Prod);
    assert_eq!(env.current_value::<Label>(), Some("default".to_string()));
    let env = built(EnvironmentBuilder::default().current_from(Config { live: false }).with_context(labels()));
    assert_eq!(*env.current_env(), EnvType::Dev);
    assert_eq!(env.current_value::<Label>(), Some("dev".to_string()));
}

#[test]
fn unregistered_marker_has_nothing() {
    let env = built(EnvironmentBuilder::default().current_env(EnvType::Dev).with_context(labels()));
    assert!(env.context::<Workers>().is_none());
    assert_eq!(env.value::<Workers>(&EnvType::Dev), None);
    assert_eq!(env.current_value::<Workers>(), None);
    assert!(env.context::<Label>().is_some());
}

#[test]
fn registered_context_without_value_gives_none() {
    let workers = ContextBuilder::<Workers>::default().with_value(EnvType::Prod, 16).build();
    let env = built(EnvironmentBuilder::default().current_env(EnvType::Dev).with_context(workers));
    assert!(env.context::<Workers>().is_some());
    assert_eq!(env.current_value::<Workers>(), None);
    assert_eq!(env.value::<Workers>(&EnvType::Prod), Some(16));
}

#[test]
fn markers_with_the_same_value_type_stay_apart() {
    let workers = ContextBuilder::<Workers>::default().with_value(EnvType::Dev, 2).with_default(8).build();
    let retries = ContextBuilder::<Retries>::default().with_value(EnvType::Dev, 0).with_default(3).build();
    let env = built(
        EnvironmentBuilder::default().current_env(EnvType::Dev).with_context(workers).with_context(retries),
    );
    assert_eq!(env.value::<Workers>(&EnvType::Dev), Some(2));
    assert_eq!(env.value::<Retries>(&EnvType::Dev), Some(0));
    assert_eq!(env.value::<Workers>(&EnvType::Prod), Some(8));
    assert_eq!(env.value::<Retries>(&EnvType::Prod), Some(3));
}

#[test]
fn order_of_registration_does_not_matter() {
    let workers = || ContextBuilder::<Workers>::default().with_default(8).build();
    let retries = || ContextBuilder::<Retries>::default().with_default(3).build();
    let one = built(
        EnvironmentBuilder::default().current_env(EnvType::Test).with_context(workers()).with_context(retries()),
    );
    let other = built(
        EnvironmentBuilder::default().current_env(EnvType::Test).with_context(retries()).with_context(workers()),
    );
    assert_eq!(one.current_value::<Workers>(), other.current_value::<Workers>());
    assert_eq!(one.current_value::<Retries>(), other.current_value::<Retries>());
    assert_eq!(one.current_value::<Workers>(), Some(8));
    assert_eq!(one.current_value::<Retries>(), Some(3));
}

#[test]
fn second_registration_replaces_the_first() {
    let first = ContextBuilder::<Workers>::default().with_value(EnvType::Dev, 1).with_default(10).build();
    let second = ContextBuilder::<Workers>::default().with_value(EnvType::Test, 2).build();
    let retries = ContextBuilder::<Retries>::default().with_default(3).build();
    let env = built(
        EnvironmentBuilder::default()
            .current_env(EnvType::Test)
            .with_context(first)
            .with_context(retries)
            .with_context(second),
    );
    assert_eq!(env.current_value::<Workers>(), Some(2));
    assert_eq!(env.value::<Workers>(&EnvType::Dev), None);
    assert_eq!(env.value::<Workers>(&EnvType::Prod), None);
    assert_eq!(env.current_value::<Retries>(), Some(3));
}

#[test]
fn context_hands_out_what_was_registered() {
    let env = built(EnvironmentBuilder::default().current_env(EnvType::Dev).with_context(labels()));
    let context = env.context::<Label>().unwrap();
    assert_eq!(context.get_for_env(&EnvType::Test), Some("test".to_string()));
    assert_eq!(context.try_get_for_env(&EnvType::Prod), Ok("default".to_string()));
}

#[test]
fn debug_is_on_in_dev_only() {
    for current in [EnvType::Dev, EnvType::Test, EnvType::Stg, EnvType::Prod] {
        let env = built(
            EnvironmentBuilder::default().current_env(current).with_context(debug_context().build()),
        );
        assert_eq!(env.is_debug(), current == EnvType::Dev);
        assert_eq!(env.current_value::<IsDebugContext>(), Some(current == EnvType::Dev));
    }
}

#[test]
fn debug_is_off_without_a_debug_context() {
    let env = built(EnvironmentBuilder::default().current_env(EnvType::Dev));
    assert!(!env.is_debug());
    let env = built(EnvironmentBuilder::default().current_env(EnvType::Dev).with_context(labels()));
    assert!(!env.is_debug());
}

#[test]
fn debug_defaults_can_be_replaced() {
    let context = debug_context().with_value(EnvType::Stg, true).build();
    let env = built(EnvironmentBuilder::default().current_env(EnvType::Stg).with_context(context));
    assert!(env.is_debug());
    let context = debug_context().with_value(EnvType::Dev, false).build();
    let env = built(EnvironmentBuilder::default().current_env(EnvType::Dev).with_context(context));
    assert!(!env.is_debug());
    let bare = ContextBuilder::<IsDebugContext>::default().with_value(EnvType::Prod, true).build();
    let env = built(EnvironmentBuilder::default().current_env(EnvType::Dev).with_context(bare));
    assert!(!env.is_debug());
}

#[test]
fn environment_can_be_shared_between_threads() {
    fn shared<T: Send + Sync>(_: &T) {}

    let env = built(EnvironmentBuilder::default().current_env(EnvType::Dev).with_context(labels()));
    shared(&env);
    shared(env.context::<Label>().unwrap());
    let one = &env;
    let two = &env;
    assert_eq!(one.current_value::<Label>(), two.current_value::<Label>());
}

#[test]
fn identities_tell_markers_apart() {
    assert!(identities_differ::<Workers, Retries>());
    assert!(identities_differ::<Retries, Workers>());
    assert!(identities_differ::<Label, IsDebugContext>());
    assert!(!identities_differ::<Workers, Workers>());
    assert!(!identities_differ::<Label, Label>());
}
